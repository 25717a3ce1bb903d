use load_tests::aggregate::summarize;
use load_tests::recorder::LatencyRecorder;

fn worker(durations: &[u64]) -> LatencyRecorder {
    let mut r = LatencyRecorder::new(1500);
    for (i, d) in durations.iter().enumerate() {
        r.record(i as u32, *d);
    }
    r
}

#[test]
fn three_devices_twenty_attempts_within_bounds() {
    let results: Vec<LatencyRecorder> = (0..3u64)
        .map(|k| worker(&(0..20u64).map(|i| 100 + 10 * i + k).collect::<Vec<u64>>()))
        .collect();
    let report = summarize(&results, 20, 1500, true).expect("statistics are on");
    assert_eq!(report.devices, 3);
    assert_eq!(report.non_initial_attempts, 57);
    assert_eq!(report.steady.len(), 57);
    assert_eq!(report.initial.len(), 3);
    assert_eq!(report.overflow, 0);
    let deciles: Vec<u64> = (0..11)
        .map(|p| report.steady.histogram().inner.value_at_quantile(p as f64 * 0.1))
        .collect();
    assert_eq!(deciles.len(), 11);
    assert!(deciles.windows(2).all(|w| w[0] <= w[1]));
    assert!(deciles[0] >= 110 && deciles[10] <= 293);
}

#[test]
fn single_attempt_run_reports_nothing() {
    let results = vec![worker(&[700])];
    assert!(summarize(&results, 1, 1500, false).is_none());
}

#[test]
fn single_out_of_range_attempt_shows_only_as_overflow() {
    let mut r = LatencyRecorder::new(1500);
    r.record(1, 1550);
    let report = summarize(&vec![r], 2, 1500, true).expect("statistics are on");
    assert_eq!(report.steady.len(), 0);
    assert_eq!(report.overflow, 1550);
}

#[test]
fn out_of_range_first_attempt_shows_only_as_overflow() {
    let results = vec![worker(&[1550])];
    let report = summarize(&results, 1, 1500, true).expect("statistics are on");
    assert_eq!(report.initial.len(), 0);
    assert_eq!(report.steady.len(), 0);
    assert_eq!(report.overflow, 1550);
    assert_eq!(report.non_initial_attempts, 0);
}

#[test]
fn overflow_is_largest_over_workers_and_first_attempts() {
    let results = vec![
        worker(&[100, 1600, 200]),
        worker(&[2500, 300, 300]),
        worker(&[100, 1700, 1900]),
    ];
    let report = summarize(&results, 3, 1500, true).expect("statistics are on");
    assert_eq!(report.overflow, 2500);
    assert_eq!(report.initial.len(), 2);
    assert_eq!(report.steady.len(), 3);
    assert_eq!(report.non_initial_attempts, 6);

    let later = vec![worker(&[100, 1600, 200]), worker(&[1400, 3100, 300])];
    let report = summarize(&later, 3, 1500, true).expect("statistics are on");
    assert_eq!(report.overflow, 3100);
}

#[test]
fn no_devices_gives_empty_report() {
    let report = summarize(&Vec::new(), 20, 1500, true).expect("statistics are on");
    assert_eq!(report.devices, 0);
    assert_eq!(report.non_initial_attempts, 0);
    assert_eq!(report.initial.len(), 0);
    assert_eq!(report.steady.len(), 0);
    assert_eq!(report.overflow, 0);
}
