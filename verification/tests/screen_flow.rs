use mxross_canvas::screen::{
    export_outcome, keeps_snapshot, painting_frame, screen_step, touch_event, MotionAction, Screen, ScreenAction,
    TouchEvent,
};
use mxross_canvas::Tool;

#[test]
fn home_moves_to_setup_on_new_canvas() {
    assert_eq!(screen_step(Screen::Home, false, None, 8192), (Screen::Home, ScreenAction::Stay));
    assert_eq!(screen_step(Screen::Home, true, None, 8192), (Screen::Setup, ScreenAction::Stay));
    // a size chosen while on Home is ignored
    assert_eq!(screen_step(Screen::Home, false, Some((10, 10, false)), 8192).0, Screen::Home);
}

#[test]
fn setup_creates_a_clamped_canvas() {
    assert_eq!(screen_step(Screen::Setup, false, None, 8192), (Screen::Setup, ScreenAction::Stay));
    assert_eq!(
        screen_step(Screen::Setup, false, Some((1920, 1080, true)), 8192),
        (Screen::Painting, ScreenAction::CreateCanvas { width: 1920, height: 1080, pixel_art: true, tool: Tool::Paint, solid_background: false })
    );
    assert_eq!(
        screen_step(Screen::Setup, false, Some((10, 10000, false)), 4096),
        (Screen::Painting, ScreenAction::CreateCanvas { width: 64, height: 4096, pixel_art: false, tool: Tool::Paint, solid_background: false })
    );
}

#[test]
fn screens_without_a_choice_need_no_gpu_limit() {
    assert_eq!(screen_step(Screen::Home, true, None, 0), (Screen::Setup, ScreenAction::Stay));
    assert_eq!(screen_step(Screen::Setup, false, None, 0), (Screen::Setup, ScreenAction::Stay));
    assert_eq!(screen_step(Screen::Painting, false, Some((1, 1, false)), 0), (Screen::Painting, ScreenAction::Stay));
}

#[test]
fn painting_is_never_left() {
    assert_eq!(screen_step(Screen::Painting, true, Some((64, 64, false)), 8192), (Screen::Painting, ScreenAction::Stay));
}

#[test]
fn painting_frame_toggles() {
    assert_eq!(painting_frame(Tool::Paint, false, false, false), (Tool::Paint, false));
    assert_eq!(painting_frame(Tool::Paint, false, true, true), (Tool::Erase, true));
    assert_eq!(painting_frame(Tool::Erase, true, true, false), (Tool::Erase, false));
}

#[test]
fn export_outcomes() {
    assert_eq!(export_outcome(Ok(vec![1, 2])), (Some(vec![1, 2]), None));
    assert_eq!(export_outcome(Err("bad".to_string())), (None, Some("Export failed: bad".to_string())));
}

#[test]
fn motion_dispatch_and_snapshots() {
    assert_eq!(touch_event(MotionAction::Down), TouchEvent::FirstDown);
    assert_eq!(touch_event(MotionAction::PointerDown), TouchEvent::SecondDown);
    assert_eq!(touch_event(MotionAction::Move), TouchEvent::Moved);
    for a in [MotionAction::Up, MotionAction::PointerUp, MotionAction::Cancel] {
        assert_eq!(touch_event(a), TouchEvent::Lifted);
    }
    assert_eq!(touch_event(MotionAction::Other), TouchEvent::Ignored);
    assert!(keeps_snapshot(Screen::Painting));
    assert!(!keeps_snapshot(Screen::Setup));
    assert!(!keeps_snapshot(Screen::Home));
}
