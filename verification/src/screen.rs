//! The app's screen flow, as decided each frame.
//!
//! The app boots into `Home`, whose "New Canvas" tile leads to `Setup`.
//! There, picking a preset or a custom width/height creates the paint
//! canvas for the first time and moves to `Painting`, with each edge
//! clamped to what the GPU can allocate, a transparent background and
//! the paint tool. `Painting` is never left. Each painting frame applies
//! the background and tool toggles that the interface requested, and an
//! export either leaves a file waiting to be saved or a failure status.
//! Creating the canvas and reading its pixels is the caller's GPU work.

use vstd::prelude::*;
use vstd::string::*;

use crate::pixels::{canvas_dimension, clamped_dimension, MIN_CANVAS_DIMENSION};
use crate::tool::Tool;

verus! {

/// Which screen is showing.
#[derive(Clone, Copy, Debug, PartialEq, Eq, Structural)]
pub enum Screen {
    /// The entry tiles, before any canvas exists.
    Home,
    /// Presets and custom width/height for a new canvas.
    Setup,
    /// Painting on the canvas.
    Painting,
}

/// What the caller has to do after a screen step.
#[derive(Clone, Copy, Debug, PartialEq, Eq, Structural)]
pub enum ScreenAction {
    /// Nothing.
    Stay,
    /// Create the paint canvas at this size and start painting on it with
    /// this tool and background (`solid_background` false: transparent).
    CreateCanvas { width: u32, height: u32, pixel_art: bool, tool: Tool, solid_background: bool },
}

/// The screen after one frame, and what the caller has to do:
/// `new_canvas_tapped` is whether the Home screen's "New Canvas" tile was
/// tapped this frame, and `chosen` the `(width, height, pixel_art)` that
/// the Setup screen confirmed this frame, if any.
pub open spec fn screen_transition(
    screen: Screen,
    new_canvas_tapped: bool,
    chosen: Option<(u32, u32, bool)>,
    max_texture_dimension: u32,
) -> (Screen, ScreenAction) {
    match screen {
        Screen::Home => if new_canvas_tapped {
            (Screen::Setup, ScreenAction::Stay)
        } else {
            (Screen::Home, ScreenAction::Stay)
        },
        Screen::Setup => match chosen {
            Some((width, height, pixel_art)) => (
                Screen::Painting,
                ScreenAction::CreateCanvas {
                    width: clamped_dimension(width, max_texture_dimension),
                    height: clamped_dimension(height, max_texture_dimension),
                    pixel_art,
                    tool: Tool::Paint,
                    solid_background: false,
                },
            ),
            None => (Screen::Setup, ScreenAction::Stay),
        },
        Screen::Painting => (Screen::Painting, ScreenAction::Stay),
    }
}

/// One frame of the screen flow. Creating a canvas needs a GPU that can
/// allocate at least the smallest canvas edge.
pub fn screen_step(
    screen: Screen,
    new_canvas_tapped: bool,
    chosen: Option<(u32, u32, bool)>,
    max_texture_dimension: u32,
) -> (r: (Screen, ScreenAction))
    requires
        screen is Setup && chosen is Some ==> MIN_CANVAS_DIMENSION <= max_texture_dimension,
    ensures
        r == screen_transition(screen, new_canvas_tapped, chosen, max_texture_dimension),
{
    match screen {
        Screen::Home => {
            if new_canvas_tapped {
                (Screen::Setup, ScreenAction::Stay)
            } else {
                (Screen::Home, ScreenAction::Stay)
            }
        },
        Screen::Setup => match chosen {
            Some((width, height, pixel_art)) => {
                let width = canvas_dimension(width, max_texture_dimension);
                let height = canvas_dimension(height, max_texture_dimension);
                (
                    Screen::Painting,
                    ScreenAction::CreateCanvas { width, height, pixel_art, tool: Tool::Paint, solid_background: false },
                )
            },
            None => (Screen::Setup, ScreenAction::Stay),
        },
        Screen::Painting => (Screen::Painting, ScreenAction::Stay),
    }
}

/// The tool and background of a painting frame after the interface's
/// requests: the tool switches when `toggle_tool`, and the background
/// switches between transparent and solid white when `toggle_background`
/// (`solid_background` is whether it is solid).
pub fn painting_frame(tool: Tool, solid_background: bool, toggle_background: bool, toggle_tool: bool) -> (r: (
    Tool,
    bool,
))
    ensures
        r.0 == (if toggle_tool {
            tool.other()
        } else {
            tool
        }),
        r.1 == (solid_background != toggle_background),
{
    let tool = if toggle_tool {
        tool.toggled()
    } else {
        tool
    };
    let solid = if toggle_background {
        !solid_background
    } else {
        solid_background
    };
    (tool, solid)
}

/// The status line of a failed export.
pub open spec fn export_failure_message(cause: Seq<char>) -> Seq<char> {
    "Export failed: "@ + cause
}

/// What an export request leaves behind: the encoded file, waiting to be
/// saved, or the status line of the failure.
pub fn export_outcome(encoded: Result<Vec<u8>, String>) -> (r: (Option<Vec<u8>>, Option<String>))
    ensures
        encoded is Ok ==> r.0 == Some(encoded->Ok_0) && r.1 is None,
        encoded is Err ==> r.0 is None && r.1 is Some && r.1->Some_0@ == export_failure_message(
            encoded->Err_0@,
        ),
{
    match encoded {
        Ok(bytes) => (Some(bytes), None),
        Err(e) => {
            let mut status = String::from_str("Export failed: ");
            status.append(e.as_str());
            (None, Some(status))
        },
    }
}

/// The kind of a platform motion event.
#[derive(Clone, Copy, Debug, PartialEq, Eq, Structural)]
pub enum MotionAction {
    Down,
    PointerDown,
    Move,
    Up,
    PointerUp,
    Cancel,
    /// Any other kind (hover, scroll, ...).
    Other,
}

/// What a motion event means to the painting screen.
#[derive(Clone, Copy, Debug, PartialEq, Eq, Structural)]
pub enum TouchEvent {
    /// A first finger touched down.
    FirstDown,
    /// Another finger touched down.
    SecondDown,
    /// The active pointers moved.
    Moved,
    /// A finger lifted, or the gesture was cancelled.
    Lifted,
    /// Nothing to do.
    Ignored,
}

/// Dispatches a motion event: `Up`, `PointerUp` and `Cancel` all count
/// as a lift.
pub fn touch_event(action: MotionAction) -> (r: TouchEvent)
    ensures
        r == (match action {
            MotionAction::Down => TouchEvent::FirstDown,
            MotionAction::PointerDown => TouchEvent::SecondDown,
            MotionAction::Move => TouchEvent::Moved,
            MotionAction::Up | MotionAction::PointerUp | MotionAction::Cancel => TouchEvent::Lifted,
            MotionAction::Other => TouchEvent::Ignored,
        }),
{
    match action {
        MotionAction::Down => TouchEvent::FirstDown,
        MotionAction::PointerDown => TouchEvent::SecondDown,
        MotionAction::Move => TouchEvent::Moved,
        MotionAction::Up | MotionAction::PointerUp | MotionAction::Cancel => TouchEvent::Lifted,
        MotionAction::Other => TouchEvent::Ignored,
    }
}

/// Whether tearing the window down has a painting to keep: only the
/// Painting screen holds a canvas; Home and Setup resume as they were.
pub fn keeps_snapshot(screen: Screen) -> (r: bool)
    ensures
        r == (screen is Painting),
{
    match screen {
        Screen::Painting => true,
        Screen::Home | Screen::Setup => false,
    }
}

/// A canvas created from Setup has exactly the requested edges, each
/// raised to `MIN_CANVAS_DIMENSION` and lowered to the GPU maximum, and
/// the requested pixel-art setting: an edge already within range is kept
/// as chosen, whatever the pixel-art setting.
pub proof fn lemma_created_canvas_has_requested_size(t: bool, w: u32, h: u32, a: bool, m: u32)
    requires
        MIN_CANVAS_DIMENSION <= m,
    ensures
        ({
            let (next, action) = screen_transition(Screen::Setup, t, Some((w, h, a)), m);
            &&& next == Screen::Painting
            &&& action matches ScreenAction::CreateCanvas { width, height, pixel_art, tool, solid_background }
            &&& action->width == (if w < 64 {
                64
            } else if w > m {
                m
            } else {
                w
            })
            &&& action->height == (if h < 64 {
                64
            } else if h > m {
                m
            } else {
                h
            })
            &&& (64 <= w <= m ==> action->width == w)
            &&& (64 <= h <= m ==> action->height == h)
            &&& action->pixel_art == a
            &&& action->tool == Tool::Paint
            &&& !action->solid_background
        }),
{
}

/// Screens only advance: Painting is never left, and Home cannot reach
/// Painting in one step (a canvas is only created from Setup).
pub proof fn lemma_screens_only_advance(s: Screen, t: bool, c: Option<(u32, u32, bool)>, m: u32)
    ensures
        s is Painting ==> screen_transition(s, t, c, m).0 is Painting,
        s is Home ==> !(screen_transition(s, t, c, m).0 is Painting),
{
}

/// A canvas is created exactly when Setup confirms a size; its edges lie
/// within `[MIN_CANVAS_DIMENSION, max_texture_dimension]`, and painting
/// starts with the paint tool on a transparent background.
pub proof fn lemma_canvas_created_only_from_setup(s: Screen, t: bool, c: Option<(u32, u32, bool)>, m: u32)
    requires
        MIN_CANVAS_DIMENSION <= m,
    ensures
        (screen_transition(s, t, c, m).1 is CreateCanvas) <==> (s is Setup && c is Some),
        screen_transition(s, t, c, m).1 matches ScreenAction::CreateCanvas {
            width,
            height,
            pixel_art,
            tool,
            solid_background,
        } ==> {
            &&& MIN_CANVAS_DIMENSION <= width <= m
            &&& MIN_CANVAS_DIMENSION <= height <= m
            &&& pixel_art == (c->0).2
            &&& tool == Tool::Paint
            &&& !solid_background
        },
{
}

/// Applying the same toggles twice in painting frames gives back the tool
/// and background one started with.
pub proof fn lemma_painting_toggles_undo(tool: Tool, solid: bool, toggle_background: bool, toggle_tool: bool)
    ensures
        ({
            let t1 = if toggle_tool {
                tool.other()
            } else {
                tool
            };
            let s1 = solid != toggle_background;
            &&& (if toggle_tool {
                t1.other()
            } else {
                t1
            }) == tool
            &&& (s1 != toggle_background) == solid
        }),
{
}

} // verus!
