//! Rolling Catmull-Rom smoothing for a live stroke's raw input samples:
//! the sliding window of control points.
//!
//! A uniform Catmull-Rom segment needs four points (P0..P3) to draw the
//! curve between P1 and P2; P0 and P3 only shape the tangents. So a live
//! stroke always lags by one sample: the segment that ends at the newest
//! point is not drawable until the next point arrives as its far
//! tangent. `flush` handles the tail once the stroke ends, duplicating
//! the last point as its own missing tangent.
//!
//! The smoother decides which control points make up each segment; the
//! curve itself is evaluated by the caller at `SUBDIVISIONS` evenly spaced
//! parameters `i / SUBDIVISIONS`, `i` in `1..=SUBDIVISIONS`. It is generic
//! over the point type `P`.

use vstd::prelude::*;

verus! {

/// How many sub-points each completed segment is sampled at.
pub const SUBDIVISIONS: usize = 8;

/// The four control points `(p0, p1, p2, p3)` of a segment, whose curve
/// runs from `p1` to `p2`.
pub type Segment<P> = (P, P, P, P);

/// What is left to draw when a stroke ends.
pub enum TailSegment<P> {
    /// Nothing: fewer than two samples were ever seen.
    Empty,
    /// Too short to curve-fit: just this last point.
    Single(P),
    /// The final segment's control points (the last point repeated as
    /// its own far tangent).
    Curve(P, P, P, P),
}

/// The last samples of a stroke that the next segment is built from.
pub struct StrokeSmoother<P> {
    points: Vec<P>,
}

/// The window that remains after the samples `samples` have been pushed
/// into an empty smoother: the last three of them (or all, if fewer).
pub open spec fn window_of<P>(samples: Seq<P>) -> Seq<P> {
    if samples.len() <= 3 {
        samples
    } else {
        samples.subrange(samples.len() - 3, samples.len() as int)
    }
}

/// Pushing `point` into the window `w` (of at most three points): the new
/// window and the segment that this completes, if any.
pub open spec fn push_step<P>(w: Seq<P>, point: P) -> (Seq<P>, Option<Segment<P>>) {
    if w.len() < 3 {
        (w.push(point), None)
    } else {
        (seq![w[1], w[2], point], Some((w[0], w[1], w[2], point)))
    }
}

/// The tail segment that flushing the window `w` gives.
pub open spec fn flush_of<P>(w: Seq<P>) -> TailSegment<P> {
    if w.len() <= 1 {
        TailSegment::Empty
    } else if w.len() == 2 {
        TailSegment::Single(w[1])
    } else {
        TailSegment::Curve(w[w.len() - 3], w[w.len() - 2], w[w.len() - 1], w[w.len() - 1])
    }
}

impl<P> View for StrokeSmoother<P> {
    type V = Seq<P>;

    closed spec fn view(&self) -> Seq<P> {
        self.points@
    }
}

impl<P> StrokeSmoother<P> {
    #[verifier::type_invariant]
    spec fn window_is_short(self) -> bool {
        self.points.len() <= 3
    }
}

impl<P: Copy> StrokeSmoother<P> {
    /// An empty smoother.
    pub fn new() -> (r: Self)
        ensures
            r@ == Seq::<P>::empty(),
    {
        StrokeSmoother { points: Vec::new() }
    }

    /// Forgets every sample.
    pub fn reset(&mut self)
        ensures
            final(self)@ == Seq::<P>::empty(),
    {
        self.points = Vec::new();
    }

    /// Feeds a new raw sample. Returns the control points of the segment
    /// that this sample completes, or `None` while there is not enough
    /// history yet (the first three samples of a stroke).
    pub fn push(&mut self, point: P) -> (r: Option<Segment<P>>)
        ensures
            old(self)@.len() <= 3,
            (final(self)@, r) == push_step(old(self)@, point),
            final(self)@.len() <= 3,
    {
        proof {
            use_type_invariant(&*self);
        }
        let n: usize = self.points.len();
        if n < 3 {
            let mut points = Vec::new();
            let mut i: usize = 0;
            while i < n
                invariant
                    n == self.points.len(),
                    i <= n,
                    points@ == self.points@.subrange(0, i as int),
                decreases n - i,
            {
                points.push(self.points[i]);
                i = i + 1;
            }
            points.push(point);
            proof {
                assert(self.points@.subrange(0, n as int) == self.points@);
            }
            self.points = points;
            None
        } else {
            let p0 = self.points[0];
            let p1 = self.points[1];
            let p2 = self.points[2];
            self.points = vec![p1, p2, point];
            Some((p0, p1, p2, point))
        }
    }

    /// Flushes whatever is left un-emitted when the stroke ends, and
    /// empties the smoother.
    pub fn flush(&mut self) -> (r: TailSegment<P>)
        ensures
            r == flush_of(old(self)@),
            final(self)@ == Seq::<P>::empty(),
    {
        let n: usize = self.points.len();
        let r = if n <= 1 {
            TailSegment::Empty
        } else if n == 2 {
            TailSegment::Single(self.points[1])
        } else {
            TailSegment::Curve(self.points[n - 3], self.points[n - 2], self.points[n - 1], self.points[n - 1])
        };
        self.points = Vec::new();
        r
    }
}

/// The window after one more sample is the window of the longer sample
/// sequence, and the segment completed by that sample is made of the
/// three samples before it and the sample itself: the curve from the
/// third-last to the second-last sample, one sample behind the newest.
pub proof fn lemma_push_extends_window<P>(samples: Seq<P>, point: P)
    ensures
        push_step(window_of(samples), point).0 == window_of(samples.push(point)),
        samples.len() < 3 ==> push_step(window_of(samples), point).1 is None,
        samples.len() >= 3 ==> push_step(window_of(samples), point).1 == Some(
            (
                samples[samples.len() - 3],
                samples[samples.len() - 2],
                samples[samples.len() - 1],
                point,
            ),
        ),
{
    let s2 = samples.push(point);
    if samples.len() >= 3 {
        assert(push_step(window_of(samples), point).0 =~= window_of(s2));
    } else {
        assert(push_step(window_of(samples), point).0 =~= window_of(s2));
    }
}

/// Flushing after the samples `samples`: nothing for fewer than two, the
/// last sample alone for exactly two, and otherwise the segment through
/// the last three samples with the last one repeated as its far tangent.
pub proof fn lemma_flush_of_samples<P>(samples: Seq<P>)
    ensures
        samples.len() < 2 ==> flush_of(window_of(samples)) == TailSegment::<P>::Empty,
        samples.len() == 2 ==> flush_of(window_of(samples)) == TailSegment::Single(samples[1]),
        samples.len() >= 3 ==> flush_of(window_of(samples)) == TailSegment::Curve(
            samples[samples.len() - 3],
            samples[samples.len() - 2],
            samples[samples.len() - 1],
            samples[samples.len() - 1],
        ),
{
}

} // verus!
