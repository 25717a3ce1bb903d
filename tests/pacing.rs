use load_tests::pacing::{next_deadline, sleep_duration, ATTEMPT_INTERVAL_MS};

#[test]
fn deadline_without_overrun_is_next_grid_point() {
    assert_eq!(next_deadline(0, 1500, 2000), 2000);
    assert_eq!(sleep_duration(0, 1500, 2000), 500);
    assert_eq!(next_deadline(4, 9000, 2000), 10000);
}

#[test]
fn deadline_when_completion_lands_on_target() {
    assert_eq!(next_deadline(0, 2000, 2000), 2000);
    assert_eq!(sleep_duration(0, 2000, 2000), 0);
}

#[test]
fn overrun_skips_forward_to_next_grid_point() {
    // attempt 0 ends at 2500: naive target 2000, delay 500, pushed one interval
    assert_eq!(next_deadline(0, 2500, 2000), 4000);
    assert_eq!(sleep_duration(0, 2500, 2000), 1500);
    // attempt 1 ends at 6100: naive target 4000, delay 2100, pushed two intervals
    assert_eq!(next_deadline(1, 6100, 2000), 8000);
    assert_eq!(sleep_duration(1, 6100, 2000), 1900);
    // delay of exactly one interval
    assert_eq!(next_deadline(0, 4000, 2000), 6000);
}

#[test]
fn deadlines_stay_on_grid_for_a_sequence_of_completions() {
    let completions: [u64; 6] = [150, 3900, 4100, 12345, 12001, 14000];
    for (i, e) in completions.iter().enumerate() {
        let target = next_deadline(i as u32, *e, ATTEMPT_INTERVAL_MS);
        assert_eq!(target % ATTEMPT_INTERVAL_MS, 0);
        assert!(target >= *e);
        if *e > ATTEMPT_INTERVAL_MS * (i as u64 + 1) {
            assert!(target > *e);
            assert!(target - *e <= ATTEMPT_INTERVAL_MS);
        } else {
            assert_eq!(target, ATTEMPT_INTERVAL_MS * (i as u64 + 1));
        }
    }
}
