//! What a pointer event *means*: orbit/pan/zoom the camera, or paint a
//! stroke.
//!
//! ## Touch-start disambiguation
//!
//! In a two-finger pinch the fingers never land at exactly the same
//! instant: the first finger's down event arrives some milliseconds
//! before the second. Painting at the first touch would put ink on the
//! canvas before anything could tell that a pinch was coming. So the
//! first touch is held as a *pending start* and is committed only once
//! either (a) `PAINT_START_DELAY_NANOS` passes with no second finger
//! (checked by `tick`, called every frame), or (b) the finger lifts
//! (`pointer_up`), which proves no pinch is coming. A second finger that
//! lands before either drops the pending start outright: no dab is ever
//! created.
//!
//! The tracker is generic over the caller's types: `P` is a screen
//! position, `Q` a pinch sample (the two-finger distance and midpoint),
//! and `U` a canvas position. Mapping a screen position onto the canvas
//! depends on the camera and is done by the caller, who hands in the
//! canvas position of the point that a decision is about.

use vstd::prelude::*;

use crate::camera::CameraMode;

verus! {

/// How long, in nanoseconds, a single-finger touch waits before
/// committing its first dab, in case a second finger is about to land.
pub const PAINT_START_DELAY_NANOS: u64 = 70_000_000;

/// A first-finger touch that may paint but has not been committed yet.
pub struct PendingStart<P> {
    /// Where the finger currently is (kept fresh by single-pointer moves).
    pub position: P,
    /// When the finger touched down, on the caller's monotonic clock in
    /// nanoseconds.
    pub started_at: u64,
}

/// The active pointers of a move event, as the tracker needs them.
pub enum Pointers<P, Q> {
    /// No pointer is active.
    Empty,
    /// Exactly one pointer, at this position.
    One(P),
    /// Two or more pointers: the first one's position, and the pinch
    /// sample of the first two.
    Pinch(P, Q),
}

/// What the caller has to do after a move event, in this order: zoom
/// and pan against `pinch_from`, cancel the stroke, start a stroke,
/// push a point into it, then drag the camera.
pub struct MoveOutcome<P, Q, U> {
    /// Discard the stroke in progress without flushing its tail.
    pub cancel_stroke: bool,
    /// The previous pinch sample, to zoom and pan relative to.
    pub pinch_from: Option<Q>,
    /// Start a stroke at this canvas position.
    pub start_stroke: Option<U>,
    /// Push this (clamped) canvas position into the stroke.
    pub push_point: Option<U>,
    /// Orbit-drag the camera from this position to the event's position.
    pub drag_from: Option<P>,
}

/// What the caller has to do after a pointer lifts, in this order.
pub struct UpOutcome<U> {
    /// Start a stroke at this canvas position (a committed tap).
    pub start_stroke: Option<U>,
    /// Push this (clamped) canvas position into the stroke, then end it.
    pub finish_at: Option<U>,
}

/// Whether a touch may become a stroke at all: only in the locked
/// orthographic mode and only while looking at the canvas front-on.
pub open spec fn can_paint(mode: CameraMode, front_view: bool) -> bool {
    mode == CameraMode::LockedOrtho && front_view
}

/// Nanoseconds from `since` to `now`, zero when the clock reads earlier.
pub open spec fn elapsed(now: u64, since: u64) -> int {
    if now >= since {
        now - since
    } else {
        0
    }
}

/// The pointer-gesture state of a canvas.
pub struct GestureTracker<P, Q> {
    /// The most recent position of the first pointer.
    pub last_pointer: Option<P>,
    /// The most recent pinch sample, while a pinch is under way.
    pub last_pinch: Option<Q>,
    /// Whether a stroke has been committed and is being painted.
    pub is_painting: bool,
    /// A first-finger touch that is waiting to become a stroke.
    pub pending_start: Option<PendingStart<P>>,
}

impl<P, Q> GestureTracker<P, Q> {
    /// No pointer down, nothing pending, nothing painting.
    pub open spec fn idle() -> Self {
        GestureTracker { last_pointer: None, last_pinch: None, is_painting: false, pending_start: None }
    }

    /// A committed stroke and a pending start never exist together.
    pub open spec fn wf(self) -> bool {
        self.is_painting ==> self.pending_start is None
    }

    /// Whether a pending start exists and has waited out the delay.
    pub open spec fn pending_ready(self, now: u64) -> bool {
        match self.pending_start {
            Some(p) => elapsed(now, p.started_at) >= PAINT_START_DELAY_NANOS,
            None => false,
        }
    }

    /// The state after a first finger touches down at `position`.
    pub open spec fn after_pointer_down(
        self,
        position: P,
        now: u64,
        mode: CameraMode,
        front_view: bool,
        ui_claims_pointer: bool,
    ) -> Self {
        GestureTracker {
            last_pointer: Some(position),
            last_pinch: self.last_pinch,
            is_painting: false,
            pending_start: if can_paint(mode, front_view) && !ui_claims_pointer {
                Some(PendingStart { position, started_at: now })
            } else {
                None
            },
        }
    }

    /// The state after a second finger touches down.
    pub open spec fn after_second_pointer_down(self) -> Self {
        GestureTracker {
            last_pointer: self.last_pointer,
            last_pinch: self.last_pinch,
            is_painting: false,
            pending_start: None,
        }
    }

    /// Committing the pending start, whatever its age: it becomes a
    /// stroke at `pending_uv` when it is on the canvas, and is kept
    /// waiting otherwise.
    pub open spec fn commit_step<U>(self, pending_uv: Option<U>) -> (Self, Option<U>) {
        if self.pending_start is Some && pending_uv is Some {
            (
                GestureTracker {
                    last_pointer: self.last_pointer,
                    last_pinch: self.last_pinch,
                    is_painting: true,
                    pending_start: None,
                },
                pending_uv,
            )
        } else {
            (self, None)
        }
    }

    /// A frame tick at `now`: commits the pending start once it has waited
    /// out the delay.
    pub open spec fn tick_step<U>(self, now: u64, pending_uv: Option<U>) -> (Self, Option<U>) {
        if self.pending_ready(now) {
            self.commit_step(pending_uv)
        } else {
            (self, None)
        }
    }

    /// A move event: the new state and what the caller has to do.
    /// `uv` is the canvas position of the first pointer (`None` when it
    /// is off the canvas) and `clamped_uv` that position pinned to the
    /// canvas edge.
    pub open spec fn moved_step<U>(
        self,
        pointers: Pointers<P, Q>,
        now: u64,
        uv: Option<U>,
        clamped_uv: U,
        ui_claims_pointer: bool,
    ) -> (Self, MoveOutcome<P, Q, U>) {
        match pointers {
            Pointers::Empty => (
                self,
                MoveOutcome {
                    cancel_stroke: false,
                    pinch_from: None,
                    start_stroke: None,
                    push_point: None,
                    drag_from: None,
                },
            ),
            Pointers::Pinch(first, sample) => (
                GestureTracker {
                    last_pointer: Some(first),
                    last_pinch: Some(sample),
                    is_painting: false,
                    pending_start: None,
                },
                MoveOutcome {
                    cancel_stroke: self.is_painting,
                    pinch_from: self.last_pinch,
                    start_stroke: None,
                    push_point: None,
                    drag_from: None,
                },
            ),
            Pointers::One(position) => {
                let refreshed: GestureTracker<P, Q> = GestureTracker {
                    last_pointer: self.last_pointer,
                    last_pinch: None,
                    is_painting: self.is_painting,
                    pending_start: match self.pending_start {
                        Some(p) => Some(PendingStart { position, started_at: p.started_at }),
                        None => None,
                    },
                };
                let (ticked, started) = refreshed.tick_step(now, uv);
                (
                    GestureTracker {
                        last_pointer: Some(position),
                        last_pinch: None,
                        is_painting: ticked.is_painting,
                        pending_start: ticked.pending_start,
                    },
                    MoveOutcome {
                        cancel_stroke: false,
                        pinch_from: None,
                        start_stroke: started,
                        push_point: if ticked.is_painting {
                            Some(clamped_uv)
                        } else {
                            None
                        },
                        drag_from: if !ticked.is_painting && ticked.pending_start is None
                            && !ui_claims_pointer {
                            self.last_pointer
                        } else {
                            None
                        },
                    },
                )
            },
        }
    }

    /// The pointer lifts: the pending start is committed at once, a stroke
    /// in progress is finished at `clamped_uv`, and the tracker goes idle.
    pub open spec fn up_step<U>(self, pending_uv: Option<U>, clamped_uv: U) -> (Self, UpOutcome<U>) {
        let (committed, started) = self.commit_step(pending_uv);
        (
            Self::idle(),
            UpOutcome {
                start_stroke: started,
                finish_at: if committed.is_painting {
                    Some(clamped_uv)
                } else {
                    None
                },
            },
        )
    }
}

impl<P: Copy, Q: Copy> GestureTracker<P, Q> {
    /// A tracker with no pointer down.
    pub fn new() -> (r: Self)
        ensures
            r == Self::idle(),
    {
        GestureTracker { last_pointer: None, last_pinch: None, is_painting: false, pending_start: None }
    }

    /// A first finger touched down at `position`. Does not paint: the
    /// touch becomes a pending start when painting is possible
    /// (`mode` is locked orthographic, the camera looks at the canvas
    /// front-on, and the caller's own UI does not claim the pointer).
    pub fn pointer_down(
        &mut self,
        position: P,
        now: u64,
        mode: CameraMode,
        front_view: bool,
        ui_claims_pointer: bool,
    )
        ensures
            *final(self) == old(self).after_pointer_down(
                position,
                now,
                mode,
                front_view,
                ui_claims_pointer,
            ),
    {
        self.last_pointer = Some(position);
        self.is_painting = false;
        self.pending_start = None;
        let painting_allowed = match mode {
            CameraMode::LockedOrtho => front_view,
            CameraMode::FreeOrbit => false,
        };
        if painting_allowed && !ui_claims_pointer {
            self.pending_start = Some(PendingStart { position, started_at: now });
        }
    }

    /// A second finger touched down: drops the pending start, and asks for
    /// the stroke in progress, if any, to be cancelled (the result).
    pub fn second_pointer_down(&mut self) -> (cancel_stroke: bool)
        ensures
            cancel_stroke == old(self).is_painting,
            *final(self) == old(self).after_second_pointer_down(),
    {
        let cancel_stroke = self.is_painting;
        self.is_painting = false;
        self.pending_start = None;
        cancel_stroke
    }

    /// Commits the pending start regardless of its age, if it is on the
    /// canvas; returns where to start the stroke.
    fn commit_pending<U>(&mut self, pending_uv: Option<U>) -> (r: Option<U>)
        ensures
            (*final(self), r) == old(self).commit_step(pending_uv),
    {
        if self.pending_start.is_some() && pending_uv.is_some() {
            self.pending_start = None;
            self.is_painting = true;
            pending_uv
        } else {
            None
        }
    }

    /// Whether the pending start exists and has waited out the delay.
    fn is_pending_ready(&self, now: u64) -> (r: bool)
        ensures
            r == self.pending_ready(now),
    {
        match &self.pending_start {
            Some(p) => {
                let waited: u64 = if now >= p.started_at {
                    now - p.started_at
                } else {
                    0
                };
                waited >= PAINT_START_DELAY_NANOS
            },
            None => false,
        }
    }

    /// Called once per frame at time `now`: commits the pending start once
    /// the disambiguation window has passed and the touch is on the
    /// canvas. `pending_uv` is the canvas position of the pending start's
    /// current position (`None` when off the canvas). Returns where to
    /// start the stroke.
    pub fn tick<U>(&mut self, now: u64, pending_uv: Option<U>) -> (r: Option<U>)
        ensures
            (*final(self), r) == old(self).tick_step(now, pending_uv),
    {
        if self.is_pending_ready(now) {
            self.commit_pending(pending_uv)
        } else {
            None
        }
    }

    /// A move event. Two or more pointers pinch (zoom and pan) and never
    /// paint; one pointer continues a committed stroke (pinned to the
    /// canvas edge), commits a pending start that is ready, or else
    /// orbit-drags the camera.
    pub fn pointer_moved<U>(
        &mut self,
        pointers: Pointers<P, Q>,
        now: u64,
        uv: Option<U>,
        clamped_uv: U,
        ui_claims_pointer: bool,
    ) -> (r: MoveOutcome<P, Q, U>)
        ensures
            (*final(self), r) == old(self).moved_step(pointers, now, uv, clamped_uv, ui_claims_pointer),
    {
        match pointers {
            Pointers::Empty => MoveOutcome {
                cancel_stroke: false,
                pinch_from: None,
                start_stroke: None,
                push_point: None,
                drag_from: None,
            },
            Pointers::Pinch(first, sample) => {
                let pinch_from = self.last_pinch;
                let cancel_stroke = self.is_painting;
                self.last_pinch = Some(sample);
                self.is_painting = false;
                self.pending_start = None;
                self.last_pointer = Some(first);
                MoveOutcome {
                    cancel_stroke,
                    pinch_from,
                    start_stroke: None,
                    push_point: None,
                    drag_from: None,
                }
            },
            Pointers::One(position) => {
                self.last_pinch = None;
                let started_at: Option<u64> = match &self.pending_start {
                    Some(p) => Some(p.started_at),
                    None => None,
                };
                match started_at {
                    Some(started_at) => {
                        self.pending_start = Some(PendingStart { position, started_at });
                    },
                    None => {},
                }
                let start_stroke = self.tick(now, uv);
                let mut push_point = None;
                let mut drag_from = None;
                if self.is_painting {
                    push_point = Some(clamped_uv);
                } else if self.pending_start.is_none() && !ui_claims_pointer {
                    drag_from = self.last_pointer;
                }
                self.last_pointer = Some(position);
                MoveOutcome {
                    cancel_stroke: false,
                    pinch_from: None,
                    start_stroke,
                    push_point,
                    drag_from,
                }
            },
        }
    }

    /// The pointer lifted. Lifting proves no second finger is coming, so
    /// a pending start on the canvas (`pending_uv`) is committed at once;
    /// a stroke in progress is finished at `clamped_uv`. The tracker goes
    /// idle.
    pub fn pointer_up<U>(&mut self, pending_uv: Option<U>, clamped_uv: U) -> (r: UpOutcome<U>)
        ensures
            (*final(self), r) == old(self).up_step(pending_uv, clamped_uv),
    {
        let start_stroke = self.commit_pending(pending_uv);
        let finish_at = if self.is_painting {
            Some(clamped_uv)
        } else {
            None
        };
        self.last_pointer = None;
        self.last_pinch = None;
        self.is_painting = false;
        self.pending_start = None;
        UpOutcome { start_stroke, finish_at }
    }
}

/// Every event keeps a committed stroke and a pending start exclusive.
pub proof fn lemma_events_keep_stroke_and_pending_exclusive<P, Q, U>(
    s: GestureTracker<P, Q>,
    position: P,
    pointers: Pointers<P, Q>,
    now: u64,
    mode: CameraMode,
    front_view: bool,
    ui_claims_pointer: bool,
    uv: Option<U>,
    clamped_uv: U,
)
    requires
        s.wf(),
    ensures
        s.after_pointer_down(position, now, mode, front_view, ui_claims_pointer).wf(),
        s.after_second_pointer_down().wf(),
        s.tick_step(now, uv).0.wf(),
        s.moved_step(pointers, now, uv, clamped_uv, ui_claims_pointer).0.wf(),
        s.up_step(uv, clamped_uv).0.wf(),
{
}

/// A second finger drops the pending start: after it, nothing is
/// pending and nothing is painting, whatever came before.
pub proof fn lemma_second_finger_drops_pending_start<P, Q>(s: GestureTracker<P, Q>)
    ensures
        s.after_second_pointer_down().pending_start is None,
        !s.after_second_pointer_down().is_painting,
{
}

/// Without a pending start and a stroke in progress, no event other than
/// a new touch-down can start a stroke or paint: ticks, moves and lifts
/// start nothing, push nothing, and leave nothing pending. So a touch
/// whose pending start was dropped by a second finger never creates a
/// dab.
pub proof fn lemma_nothing_pending_paints_nothing<P, Q, U>(
    s: GestureTracker<P, Q>,
    pointers: Pointers<P, Q>,
    now: u64,
    uv: Option<U>,
    clamped_uv: U,
    ui_claims_pointer: bool,
)
    requires
        s.pending_start is None,
        !s.is_painting,
    ensures
        s.tick_step(now, uv).1 is None,
        s.tick_step(now, uv).0 == s,
        s.moved_step(pointers, now, uv, clamped_uv, ui_claims_pointer).1.start_stroke is None,
        s.moved_step(pointers, now, uv, clamped_uv, ui_claims_pointer).1.push_point is None,
        s.moved_step(pointers, now, uv, clamped_uv, ui_claims_pointer).0.pending_start is None,
        !s.moved_step(pointers, now, uv, clamped_uv, ui_claims_pointer).0.is_painting,
        s.up_step(uv, clamped_uv).1.start_stroke is None,
        s.up_step(uv, clamped_uv).1.finish_at is None,
{
}

/// A quick tap paints: a touch that may paint and lifts on the canvas
/// before the delay has passed starts a stroke at once and finishes it,
/// without waiting out the window.
pub proof fn lemma_lift_commits_tap_immediately<P, Q, U>(
    s: GestureTracker<P, Q>,
    position: P,
    now: u64,
    front_view: bool,
    pending_uv: U,
    clamped_uv: U,
)
    requires
        front_view,
    ensures
        ({
            let down = s.after_pointer_down(position, now, CameraMode::LockedOrtho, front_view, false);
            let (after, out) = down.up_step(Some(pending_uv), clamped_uv);
            &&& after == GestureTracker::<P, Q>::idle()
            &&& out.start_stroke == Some(pending_uv)
            &&& out.finish_at == Some(clamped_uv)
        }),
{
}

/// A pending start waits out the delay: a tick earlier than
/// `PAINT_START_DELAY_NANOS` after the touch commits nothing and changes
/// nothing; a tick at or after it commits a touch that is on the canvas.
pub proof fn lemma_pending_start_waits_for_delay<P, Q, U>(
    s: GestureTracker<P, Q>,
    position: P,
    down_at: u64,
    now: u64,
    front_view: bool,
    pending_uv: U,
)
    requires
        front_view,
    ensures
        ({
            let down = s.after_pointer_down(position, down_at, CameraMode::LockedOrtho, front_view, false);
            &&& elapsed(now, down_at) < PAINT_START_DELAY_NANOS ==> down.tick_step(now, Some(pending_uv))
                == (down, None::<U>)
            &&& elapsed(now, down_at) >= PAINT_START_DELAY_NANOS ==> {
                let (after, started) = down.tick_step(now, Some(pending_uv));
                &&& started == Some(pending_uv)
                &&& after.is_painting
                &&& after.pending_start is None
            }
        }),
{
}

/// A pending start that is off the canvas is kept, not dropped, by a
/// tick or a forced commit: a touch that starts outside the canvas and
/// drags inward starts painting once it crosses the edge.
pub proof fn lemma_off_canvas_start_is_kept<P, Q, U>(s: GestureTracker<P, Q>, now: u64)
    ensures
        s.tick_step(now, None::<U>) == (s, None::<U>),
        s.commit_step(None::<U>) == (s, None::<U>),
{
}

/// A touch that may not paint (free orbit, not facing the canvas, or
/// claimed by the UI) never becomes a pending start.
pub proof fn lemma_no_pending_start_when_painting_is_off<P, Q>(
    s: GestureTracker<P, Q>,
    position: P,
    now: u64,
    mode: CameraMode,
    front_view: bool,
    ui_claims_pointer: bool,
)
    requires
        !can_paint(mode, front_view) || ui_claims_pointer,
    ensures
        s.after_pointer_down(position, now, mode, front_view, ui_claims_pointer).pending_start is None,
        !s.after_pointer_down(position, now, mode, front_view, ui_claims_pointer).is_painting,
{
}

/// Two or more pointers never paint: a pinch starts and pushes nothing,
/// drops the pending start, cancels the stroke in progress if there is
/// one, and hands back the previous pinch sample to zoom and pan against.
pub proof fn lemma_pinch_never_paints<P, Q, U>(
    s: GestureTracker<P, Q>,
    first: P,
    sample: Q,
    now: u64,
    uv: Option<U>,
    clamped_uv: U,
    ui_claims_pointer: bool,
)
    ensures
        ({
            let (after, out) = s.moved_step(Pointers::Pinch(first, sample), now, uv, clamped_uv, ui_claims_pointer);
            &&& out.start_stroke is None
            &&& out.push_point is None
            &&& out.drag_from is None
            &&& out.cancel_stroke == s.is_painting
            &&& out.pinch_from == s.last_pinch
            &&& !after.is_painting
            &&& after.pending_start is None
            &&& after.last_pinch == Some(sample)
        }),
{
}

/// A committed stroke keeps drawing while one finger moves, pinned to
/// the canvas edge, and never drags the camera meanwhile.
pub proof fn lemma_stroke_continues_on_move<P, Q, U>(
    s: GestureTracker<P, Q>,
    position: P,
    now: u64,
    uv: Option<U>,
    clamped_uv: U,
    ui_claims_pointer: bool,
)
    requires
        s.wf(),
        s.is_painting,
    ensures
        ({
            let (after, out) = s.moved_step(Pointers::One(position), now, uv, clamped_uv, ui_claims_pointer);
            &&& out.start_stroke is None
            &&& out.push_point == Some(clamped_uv)
            &&& out.drag_from is None
            &&& after.is_painting
            &&& after.last_pointer == Some(position)
        }),
{
}

/// A single-pointer move keeps a waiting touch's position fresh, so it
/// commits at wherever the finger is now: a pending start that is not
/// committed by the move follows the finger and keeps its start time.
pub proof fn lemma_move_refreshes_pending_start<P, Q, U>(
    s: GestureTracker<P, Q>,
    position: P,
    now: u64,
    uv: Option<U>,
    clamped_uv: U,
    ui_claims_pointer: bool,
)
    requires
        s.pending_start is Some,
    ensures
        ({
            let (after, out) = s.moved_step(Pointers::One(position), now, uv, clamped_uv, ui_claims_pointer);
            &&& after.pending_start is Some ==> after.pending_start == Some(
                PendingStart { position, started_at: s.pending_start->0.started_at },
            )
            &&& after.pending_start is None ==> out.start_stroke == uv && uv is Some
            &&& out.drag_from is None
        }),
{
}

/// A one-finger move draws only as part of a committed stroke: it pushes
/// a point (the move's clamped canvas position) exactly when the tracker
/// is painting after the move. A touch whose pending start has not yet
/// waited out the delay stays pending and draws nothing.
pub proof fn lemma_move_draws_only_when_painting<P, Q, U>(
    s: GestureTracker<P, Q>,
    position: P,
    now: u64,
    uv: Option<U>,
    clamped_uv: U,
    ui_claims_pointer: bool,
)
    requires
        s.wf(),
    ensures
        ({
            let (after, out) = s.moved_step(Pointers::One(position), now, uv, clamped_uv, ui_claims_pointer);
            &&& (out.push_point is Some) <==> after.is_painting
            &&& out.push_point is Some ==> out.push_point == Some(clamped_uv)
            &&& after.is_painting ==> after.pending_start is None
            &&& (s.pending_start is Some && !s.is_painting && elapsed(now, s.pending_start->0.started_at)
                < PAINT_START_DELAY_NANOS) ==> {
                &&& out.push_point is None
                &&& out.start_stroke is None
                &&& !after.is_painting
                &&& after.pending_start is Some
            }
            &&& out.start_stroke is Some ==> (s.pending_start is Some && after.is_painting && out.start_stroke
                == uv)
        }),
{
}

/// Every move records where the first pointer now is, whatever the state,
/// so an orbit drag moves the camera by the distance since the previous
/// sample: when neither painting nor waiting and the interface does not
/// claim the pointer, a move drags from the previous position, and two
/// successive moves drag from the first move's position.
pub proof fn lemma_move_records_position<P, Q, U>(
    s: GestureTracker<P, Q>,
    first: P,
    second: P,
    sample: Q,
    now1: u64,
    now2: u64,
    uv: Option<U>,
    clamped_uv: U,
    ui_claims_pointer: bool,
)
    ensures
        s.moved_step(Pointers::One(first), now1, uv, clamped_uv, ui_claims_pointer).0.last_pointer == Some(first),
        s.moved_step(Pointers::Pinch(first, sample), now1, uv, clamped_uv, ui_claims_pointer).0.last_pointer
            == Some(first),
        (!s.is_painting && s.pending_start is None && !ui_claims_pointer) ==> s.moved_step(
            Pointers::One(first),
            now1,
            uv,
            clamped_uv,
            ui_claims_pointer,
        ).1.drag_from == s.last_pointer,
        ({
            let (mid, _) = s.moved_step(Pointers::One(first), now1, uv, clamped_uv, ui_claims_pointer);
            (!s.is_painting && s.pending_start is None && !ui_claims_pointer) ==> mid.moved_step(
                Pointers::One(second),
                now2,
                uv,
                clamped_uv,
                ui_claims_pointer,
            ).1.drag_from == Some(first)
        }),
{
}

/// Lifting the pointer always leaves the tracker idle.
pub proof fn lemma_lift_goes_idle<P, Q, U>(s: GestureTracker<P, Q>, uv: Option<U>, clamped_uv: U)
    ensures
        s.up_step(uv, clamped_uv).0 == GestureTracker::<P, Q>::idle(),
{
}

} // verus!
