use mxross_canvas::gesture::{GestureTracker, Pointers, PAINT_START_DELAY_NANOS};
use mxross_canvas::CameraMode;

type Tracker = GestureTracker<(i32, i32), u32>;

const MS: u64 = 1_000_000;

fn down(t: &mut Tracker, pos: (i32, i32), now: u64) {
    t.pointer_down(pos, now, CameraMode::LockedOrtho, true, false);
}

#[test]
fn touch_down_waits_instead_of_painting() {
    let mut t = Tracker::new();
    down(&mut t, (5, 5), 0);
    assert!(!t.is_painting);
    assert!(t.pending_start.is_some());
    assert_eq!(t.tick(69 * MS, Some("uv")), None);
    assert!(t.pending_start.is_some());
    assert_eq!(t.tick(70 * MS, Some("uv")), Some("uv"));
    assert!(t.is_painting);
    assert!(t.pending_start.is_none());
}

#[test]
fn delay_is_seventy_milliseconds() {
    assert_eq!(PAINT_START_DELAY_NANOS, 70 * MS);
}

#[test]
fn second_finger_before_commit_never_paints() {
    let mut t = Tracker::new();
    down(&mut t, (5, 5), 0);
    assert!(!t.second_pointer_down());
    assert!(t.pending_start.is_none());
    assert_eq!(t.tick(500 * MS, Some(1)), None);
    let out = t.pointer_moved(Pointers::One((6, 6)), 600 * MS, Some(1), 1, false);
    assert_eq!(out.start_stroke, None);
    assert_eq!(out.push_point, None);
    let up = t.pointer_up(Some(1), 1);
    assert_eq!(up.start_stroke, None);
    assert_eq!(up.finish_at, None);
}

#[test]
fn second_finger_cancels_committed_stroke() {
    let mut t = Tracker::new();
    down(&mut t, (5, 5), 0);
    t.tick(100 * MS, Some(()));
    assert!(t.is_painting);
    assert!(t.second_pointer_down());
    assert!(!t.is_painting);
}

#[test]
fn quick_tap_paints_on_lift() {
    let mut t = Tracker::new();
    down(&mut t, (5, 5), 0);
    let up = t.pointer_up(Some("start"), "end");
    assert_eq!(up.start_stroke, Some("start"));
    assert_eq!(up.finish_at, Some("end"));
    assert!(t.last_pointer.is_none());
    assert!(!t.is_painting);
    assert!(t.pending_start.is_none());
}

#[test]
fn lift_off_canvas_does_not_paint() {
    let mut t = Tracker::new();
    down(&mut t, (5, 5), 0);
    let up = t.pointer_up(None, 9);
    assert_eq!(up.start_stroke, None);
    assert_eq!(up.finish_at, None);
}

#[test]
fn no_pending_start_when_painting_is_off() {
    let mut t = Tracker::new();
    t.pointer_down((1, 1), 0, CameraMode::FreeOrbit, true, false);
    assert!(t.pending_start.is_none());
    t.pointer_down((1, 1), 0, CameraMode::LockedOrtho, false, false);
    assert!(t.pending_start.is_none());
    t.pointer_down((1, 1), 0, CameraMode::LockedOrtho, true, true);
    assert!(t.pending_start.is_none());
    assert_eq!(t.last_pointer, Some((1, 1)));
}

#[test]
fn off_canvas_start_commits_once_it_crosses_the_edge() {
    let mut t = Tracker::new();
    down(&mut t, (-50, 5), 0);
    assert_eq!(t.tick(100 * MS, None::<i32>), None);
    assert!(t.pending_start.is_some());
    let out = t.pointer_moved(Pointers::One((-10, 5)), 110 * MS, None, 0, false);
    assert_eq!(out.start_stroke, None);
    assert_eq!(out.drag_from, None);
    assert_eq!(t.pending_start.as_ref().unwrap().position, (-10, 5));
    let out = t.pointer_moved(Pointers::One((3, 5)), 120 * MS, Some(3), 3, false);
    assert_eq!(out.start_stroke, Some(3));
    assert_eq!(out.push_point, Some(3));
    assert!(t.is_painting);
}

#[test]
fn pinch_zooms_pans_and_never_paints() {
    let mut t = Tracker::new();
    down(&mut t, (5, 5), 0);
    t.tick(100 * MS, Some(0));
    let out = t.pointer_moved(Pointers::Pinch((5, 5), 40), 110 * MS, Some(0), 0, false);
    assert!(out.cancel_stroke);
    assert_eq!(out.pinch_from, None);
    assert_eq!(out.start_stroke, None);
    assert_eq!(out.push_point, None);
    let out = t.pointer_moved(Pointers::Pinch((6, 5), 60), 120 * MS, Some(0), 0, false);
    assert!(!out.cancel_stroke);
    assert_eq!(out.pinch_from, Some(40));
    assert_eq!(t.last_pinch, Some(60));
    assert!(!t.is_painting);
    let out = t.pointer_moved(Pointers::One((6, 5)), 130 * MS, Some(0), 0, false);
    assert_eq!(out.pinch_from, None);
    assert_eq!(t.last_pinch, None);
}

#[test]
fn single_finger_drags_camera_when_not_painting() {
    let mut t = Tracker::new();
    t.pointer_down((1, 1), 0, CameraMode::FreeOrbit, false, false);
    let out = t.pointer_moved(Pointers::One((4, 3)), 5 * MS, None::<u8>, 0, false);
    assert_eq!(out.drag_from, Some((1, 1)));
    let out = t.pointer_moved(Pointers::One((6, 3)), 6 * MS, None::<u8>, 0, true);
    assert_eq!(out.drag_from, None);
    assert_eq!(t.last_pointer, Some((6, 3)));
}

#[test]
fn committed_stroke_follows_the_finger() {
    let mut t = Tracker::new();
    down(&mut t, (5, 5), 0);
    t.tick(80 * MS, Some(10));
    let out = t.pointer_moved(Pointers::One((7, 7)), 90 * MS, None, 11, false);
    assert_eq!(out.start_stroke, None);
    assert_eq!(out.push_point, Some(11));
    assert_eq!(out.drag_from, None);
    let up = t.pointer_up(None, 12);
    assert_eq!(up.start_stroke, None);
    assert_eq!(up.finish_at, Some(12));
}

#[test]
fn empty_move_changes_nothing() {
    let mut t = Tracker::new();
    down(&mut t, (5, 5), 0);
    let out = t.pointer_moved(Pointers::Empty, 999 * MS, Some(1), 1, false);
    assert_eq!(out.start_stroke, None);
    assert!(t.pending_start.is_some());
    assert!(!t.is_painting);
}
