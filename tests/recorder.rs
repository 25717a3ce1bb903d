use load_tests::recorder::LatencyRecorder;

#[test]
fn first_attempt_is_kept_apart() {
    let mut r = LatencyRecorder::new(1500);
    r.record(0, 900);
    assert_eq!(r.initial_duration(), 900);
    assert_eq!(r.histogram().len(), 0);
    assert_eq!(r.steady_count(), 0);
    assert_eq!(r.overflow(), 0);
}

#[test]
fn first_attempt_above_bound_is_kept_as_is() {
    let mut r = LatencyRecorder::new(1500);
    r.record(0, 5000);
    assert_eq!(r.initial_duration(), 5000);
    assert_eq!(r.overflow(), 0);
}

#[test]
fn in_range_duration_goes_to_histogram_only() {
    let mut r = LatencyRecorder::new(1500);
    r.record(1, 1500);
    r.record(2, 40);
    assert_eq!(r.histogram().len(), 2);
    assert_eq!(r.overflow(), 0);
    assert_eq!(r.steady_count(), 2);
}

#[test]
fn out_of_range_duration_goes_to_overflow_only() {
    let mut r = LatencyRecorder::new(1500);
    r.record(1, 1501);
    assert_eq!(r.histogram().len(), 0);
    assert_eq!(r.overflow(), 1501);
    r.record(2, 3000);
    r.record(3, 2000);
    r.record(4, 100);
    assert_eq!(r.histogram().len(), 1);
    assert_eq!(r.overflow(), 3000);
    assert_eq!(r.steady_count(), 4);
}
