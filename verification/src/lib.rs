//! MxRoss Canvas: the decision logic of a touch-driven painting engine.
//!
//! - `canvas`: the layer stack of a canvas.
//! - `gesture`: what a pointer event means (paint, pinch, orbit), with
//!   the touch-start disambiguation that keeps a pinch from painting.
//! - `smoothing`: the sliding window of Catmull-Rom control points.
//! - `camera`: camera modes and the cardinal axes the gizmo snaps to.
//! - `tool`: paint or erase.
//! - `export`: flattening onto a background and PNG encoding.
//! - `media`: saving an export, and its status line.
//! - `pixels`: integer layout of quad index lists and read-back rows.
//! - `render`: the renderers and the default brush hook.
//! - `screen`: the Home / Setup / Painting screen flow.
//! - `timer`: a stopwatch.
//! - `text`: decimal numbers in messages.

pub mod camera;
pub mod canvas;
pub mod export;
pub mod gesture;
pub mod media;
pub mod pixels;
pub mod render;
pub mod screen;
pub mod smoothing;
pub mod text;
pub mod timer;
pub mod tool;

pub use camera::{Axis, CameraMode};
pub use canvas::{BlendMode, Canvas, Layer};
pub use render::{CpuRenderer, NoOpHook, Renderer};
pub use smoothing::StrokeSmoother;
pub use timer::Timer;
pub use tool::Tool;
