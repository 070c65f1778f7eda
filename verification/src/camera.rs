//! The discrete part of the orbit camera: its two modes and the six
//! cardinal axes that the gizmo snaps to.
//!
//! Everything here is exact. A direction is a unit vector along one
//! world axis, written with integer components, and a snap angle is a
//! whole number of degrees; the floating-point camera state (yaw, pitch,
//! radius, pan offset) is built from these by the application.

use vstd::prelude::*;

verus! {

/// A cardinal world axis, as offered by the axis gizmo.
#[derive(Clone, Copy, Debug, PartialEq, Eq, Structural)]
pub enum Axis {
    PosX,
    NegX,
    PosY,
    NegY,
    PosZ,
    NegZ,
}

/// The two viewport modes. `LockedOrtho` is a flat orthographic view with
/// no orbit drag; `FreeOrbit` is a perspective orbit driven by a
/// single-finger drag. Both share one yaw/pitch/radius/pan state.
#[derive(Clone, Copy, Debug, PartialEq, Eq, Structural)]
pub enum CameraMode {
    LockedOrtho,
    FreeOrbit,
}

/// Sine of a whole number of quarter turns, given in degrees.
pub open spec fn quarter_sin(degrees: int) -> int
    recommends
        degrees % 90 == 0,
{
    let d: int = degrees % 360;
    if d == 90 {
        1
    } else if d == 270 {
        -1
    } else {
        0
    }
}

/// Cosine of a whole number of quarter turns, given in degrees.
pub open spec fn quarter_cos(degrees: int) -> int
    recommends
        degrees % 90 == 0,
{
    let d: int = degrees % 360;
    if d == 0 {
        1
    } else if d == 180 {
        -1
    } else {
        0
    }
}

/// Unit direction from the look-at target toward the eye for a camera at
/// `yaw` and `pitch` (whole quarter turns, in degrees):
/// `(cos pitch * sin yaw, sin pitch, cos pitch * cos yaw)`.
pub open spec fn eye_direction(yaw: int, pitch: int) -> (int, int, int) {
    (
        quarter_cos(pitch) * quarter_sin(yaw),
        quarter_sin(pitch),
        quarter_cos(pitch) * quarter_cos(yaw),
    )
}

impl Axis {
    /// The unit vector of this axis, as integer components.
    pub open spec fn unit(self) -> (int, int, int) {
        match self {
            Axis::PosX => (1, 0, 0),
            Axis::NegX => (-1, 0, 0),
            Axis::PosY => (0, 1, 0),
            Axis::NegY => (0, -1, 0),
            Axis::PosZ => (0, 0, 1),
            Axis::NegZ => (0, 0, -1),
        }
    }

    /// The snap angles `(yaw, pitch)` of this axis, in degrees.
    pub open spec fn snap_angles(self) -> (int, int) {
        match self {
            Axis::PosZ => (0, 0),
            Axis::NegZ => (180, 0),
            Axis::PosX => (90, 0),
            Axis::NegX => (-90, 0),
            Axis::PosY => (0, 90),
            Axis::NegY => (0, -90),
        }
    }

    /// The world-space direction of this axis.
    pub fn direction(self) -> (r: (i32, i32, i32))
        ensures
            (r.0 as int, r.1 as int, r.2 as int) == self.unit(),
    {
        match self {
            Axis::PosX => (1, 0, 0),
            Axis::NegX => (-1, 0, 0),
            Axis::PosY => (0, 1, 0),
            Axis::NegY => (0, -1, 0),
            Axis::PosZ => (0, 0, 1),
            Axis::NegZ => (0, 0, -1),
        }
    }

    /// `(yaw, pitch)` in degrees that puts the eye out along this axis,
    /// looking back toward the origin.
    pub fn yaw_pitch_degrees(self) -> (r: (i32, i32))
        ensures
            (r.0 as int, r.1 as int) == self.snap_angles(),
    {
        match self {
            Axis::PosZ => (0, 0),
            Axis::NegZ => (180, 0),
            Axis::PosX => (90, 0),
            Axis::NegX => (-90, 0),
            Axis::PosY => (0, 90),
            Axis::NegY => (0, -90),
        }
    }
}

impl CameraMode {
    /// The other mode.
    pub open spec fn other(self) -> CameraMode {
        match self {
            CameraMode::LockedOrtho => CameraMode::FreeOrbit,
            CameraMode::FreeOrbit => CameraMode::LockedOrtho,
        }
    }

    /// Switches between the locked orthographic view and the free orbit.
    pub fn toggled(self) -> (r: CameraMode)
        ensures
            r == self.other(),
            r != self,
    {
        match self {
            CameraMode::LockedOrtho => CameraMode::FreeOrbit,
            CameraMode::FreeOrbit => CameraMode::LockedOrtho,
        }
    }
}

/// Snapping to an axis puts the eye out along that axis: the eye
/// direction computed from the snap angles is the axis's own unit vector.
pub proof fn lemma_snap_puts_eye_on_axis(axis: Axis)
    ensures
        eye_direction(axis.snap_angles().0, axis.snap_angles().1) == axis.unit(),
{
}

/// Snap angles stay within one turn of yaw and within the poles for
/// pitch: a snap lands at most exactly on a pole, never past it.
pub proof fn lemma_snap_angles_in_range(axis: Axis)
    ensures
        -180 <= axis.snap_angles().0 <= 180,
        -90 <= axis.snap_angles().1 <= 90,
        axis.snap_angles().0 % 90 == 0,
        axis.snap_angles().1 % 90 == 0,
{
}

/// Distinct axes snap to distinct views.
pub proof fn lemma_snap_angles_distinct(a: Axis, b: Axis)
    requires
        a != b,
    ensures
        a.snap_angles() != b.snap_angles(),
        a.unit() != b.unit(),
{
}

/// Toggling the camera mode twice gives back the mode one started with.
pub proof fn lemma_mode_toggle_involutive(mode: CameraMode)
    ensures
        mode.other().other() == mode,
        mode.other() != mode,
{
}

} // verus!
