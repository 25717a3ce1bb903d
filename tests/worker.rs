use load_tests::worker::{WorkerAction, WorkerSession, WorkerStage};

struct Tally {
    inits: u32,
    checks: u32,
    sleeps: Vec<u64>,
    destroys: u32,
    order: Vec<&'static str>,
}

fn drive(attempts: u32, durations: &[u64], stats: bool) -> (Tally, WorkerSession) {
    let mut s = WorkerSession::new(7, attempts, 1500, stats);
    let mut t = Tally { inits: 0, checks: 0, sleeps: Vec::new(), destroys: 0, order: Vec::new() };
    let mut clock: u64 = 0;
    let mut action = s.start();
    loop {
        match action {
            WorkerAction::Initialize => {
                t.inits += 1;
                t.order.push("init");
                action = s.initialized(-1);
            }
            WorkerAction::Check => {
                let d = durations[t.checks as usize % durations.len()];
                t.checks += 1;
                t.order.push("check");
                clock += d;
                action = s.checked(d, clock);
            }
            WorkerAction::Sleep { millis } => {
                t.sleeps.push(millis);
                t.order.push("sleep");
                clock += millis;
                action = s.slept();
            }
            WorkerAction::Destroy => {
                t.destroys += 1;
                t.order.push("destroy");
                action = s.destroyed();
            }
            WorkerAction::Done => break,
        }
    }
    (t, s)
}

#[test]
fn worker_performs_each_attempt_once_between_init_and_destroy() {
    for n in [1u32, 2, 5, 20] {
        let (t, s) = drive(n, &[30, 2500, 7000, 10], true);
        assert_eq!(t.inits, 1);
        assert_eq!(t.checks, n);
        assert_eq!(t.destroys, 1);
        assert_eq!(t.order.first(), Some(&"init"));
        assert_eq!(t.order.last(), Some(&"destroy"));
        assert_eq!(t.sleeps.len() as u32, n - 1);
        assert_eq!(s.stage(), WorkerStage::Done);
        assert_eq!(s.checks_done(), n);
        assert_eq!(s.init_status(), -1);
        assert_eq!(s.device_number(), 7);
    }
}

#[test]
fn single_attempt_never_sleeps() {
    let (t, s) = drive(1, &[5000], false);
    assert!(t.sleeps.is_empty());
    assert_eq!(t.order, vec!["init", "check", "destroy"]);
    let r = s.into_result();
    assert_eq!(r.histogram().len(), 0);
    assert_eq!(r.initial_duration(), 0);
}

#[test]
fn checks_start_on_the_cadence_grid() {
    let mut s = WorkerSession::new(0, 4, 1500, true);
    assert_eq!(s.start(), WorkerAction::Initialize);
    assert_eq!(s.initialized(0), WorkerAction::Check);
    assert_eq!(s.checked(300, 300), WorkerAction::Sleep { millis: 1700 });
    assert_eq!(s.slept(), WorkerAction::Check);
    // second attempt overruns its deadline of 4000
    assert_eq!(s.checked(2600, 4600), WorkerAction::Sleep { millis: 1400 });
    assert_eq!(s.slept(), WorkerAction::Check);
    assert_eq!(s.checked(100, 6100), WorkerAction::Sleep { millis: 1900 });
    assert_eq!(s.slept(), WorkerAction::Check);
    assert_eq!(s.checked(1600, 9600), WorkerAction::Destroy);
    assert_eq!(s.destroyed(), WorkerAction::Done);
    let r = s.into_result();
    assert_eq!(r.initial_duration(), 300);
    assert_eq!(r.histogram().len(), 1);
    assert_eq!(r.overflow(), 2600);
    assert_eq!(r.steady_count(), 3);
}

#[test]
fn statistics_off_records_nothing() {
    let (_, s) = drive(3, &[100, 4000], false);
    let r = s.into_result();
    assert_eq!(r.steady_count(), 0);
    assert_eq!(r.overflow(), 0);
    assert_eq!(r.histogram().len(), 0);
}
