use mxross_canvas::smoothing::{TailSegment, SUBDIVISIONS};
use mxross_canvas::StrokeSmoother;

#[test]
fn first_three_samples_emit_nothing() {
    let mut s = StrokeSmoother::new();
    assert_eq!(s.push(1), None);
    assert_eq!(s.push(2), None);
    assert_eq!(s.push(3), None);
}

#[test]
fn each_later_sample_completes_the_segment_one_behind() {
    let mut s = StrokeSmoother::new();
    for p in 1..=3 {
        s.push(p);
    }
    assert_eq!(s.push(4), Some((1, 2, 3, 4)));
    assert_eq!(s.push(5), Some((2, 3, 4, 5)));
    assert_eq!(s.push(6), Some((3, 4, 5, 6)));
}

#[test]
fn flush_tail_segments() {
    let mut s: StrokeSmoother<i32> = StrokeSmoother::new();
    assert!(matches!(s.flush(), TailSegment::Empty));
    s.push(1);
    assert!(matches!(s.flush(), TailSegment::Empty));
    s.push(1);
    s.push(2);
    assert!(matches!(s.flush(), TailSegment::Single(2)));
    for p in 1..=5 {
        s.push(p);
    }
    assert!(matches!(s.flush(), TailSegment::Curve(3, 4, 5, 5)));
    // flushing empties the smoother
    assert!(matches!(s.flush(), TailSegment::Empty));
}

#[test]
fn reset_forgets_history() {
    let mut s = StrokeSmoother::new();
    s.push(1);
    s.push(2);
    s.push(3);
    s.reset();
    assert_eq!(s.push(4), None);
    assert!(matches!(s.flush(), TailSegment::Empty));
}

#[test]
fn segments_are_sampled_eight_times() {
    assert_eq!(SUBDIVISIONS, 8);
}
