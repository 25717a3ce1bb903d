//! Cadence of the attempts of one worker, measured from the shared run start.

use vstd::prelude::*;

verus! {

/// Target spacing between the starts of consecutive attempts, in milliseconds.
pub const ATTEMPT_INTERVAL_MS: u64 = 2000;

/// The deadline (time since run start) at which the attempt after `attempt` is issued,
/// when attempt `attempt` completed `elapsed` time units after run start.
/// The naive deadline `interval * (attempt + 1)` is pushed forward by whole intervals
/// until it lies past an overrun.
pub open spec fn next_deadline_spec(attempt: nat, elapsed: nat, interval: nat) -> nat {
    let target = interval * (attempt + 1);
    if elapsed > target {
        target + interval * (1 + (elapsed - target) as nat / interval)
    } else {
        target
    }
}

proof fn lemma_deadline_facts(attempt: nat, elapsed: nat, interval: nat)
    requires
        interval > 0,
    ensures
        next_deadline_spec(attempt, elapsed, interval) % interval == 0,
        next_deadline_spec(attempt, elapsed, interval) >= elapsed,
        next_deadline_spec(attempt, elapsed, interval) >= interval * (attempt + 1),
        elapsed > interval * (attempt + 1) ==> next_deadline_spec(attempt, elapsed, interval)
            > elapsed,
        next_deadline_spec(attempt, elapsed, interval) <= if elapsed > interval * (attempt + 1) {
            elapsed + interval
        } else {
            interval * (attempt + 1)
        },
{
    let target = interval * (attempt + 1);
    if elapsed > target {
        let delay = (elapsed - target) as nat;
        let q = delay / interval;
        let r = delay % interval;
        assert(delay == interval * q + r && 0 <= r < interval) by (nonlinear_arith)
            requires
                interval > 0,
                q == delay / interval,
                r == delay % interval,
        ;
        let d = target + interval * (1 + q);
        assert(d == interval * (attempt + 1 + 1 + q)) by (nonlinear_arith)
            requires
                d == target + interval * (1 + q),
                target == interval * (attempt + 1),
        ;
        assert(d % interval == 0) by (nonlinear_arith)
            requires
                d == interval * (attempt + 1 + 1 + q),
                interval > 0,
        ;
        assert(interval * (1 + q) == interval + interval * q) by (nonlinear_arith);
    } else {
        assert(target % interval == 0) by (nonlinear_arith)
            requires
                target == interval * (attempt + 1),
                interval > 0,
        ;
    }
}

/// Every computed deadline lies on the cadence grid (a whole multiple of the interval
/// from run start), never before the completion time, and strictly after it whenever
/// the completed attempt overran its naive deadline; an overrun is never compensated
/// by more than one interval of waiting.
pub proof fn lemma_deadline_on_grid(attempt: nat, elapsed: nat, interval: nat)
    requires
        interval > 0,
    ensures
        next_deadline_spec(attempt, elapsed, interval) % interval == 0,
        next_deadline_spec(attempt, elapsed, interval) >= elapsed,
        elapsed > interval * (attempt + 1) ==> {
            &&& next_deadline_spec(attempt, elapsed, interval) > elapsed
            &&& next_deadline_spec(attempt, elapsed, interval) - elapsed <= interval
        },
{
    lemma_deadline_facts(attempt, elapsed, interval);
}

/// Computes the deadline of the attempt that follows attempt `attempt`.
pub fn next_deadline(attempt: u32, elapsed: u64, interval: u64) -> (r: u64)
    requires
        interval > 0,
        interval * (attempt + 1) <= u64::MAX,
        elapsed + interval <= u64::MAX,
    ensures
        r == next_deadline_spec(attempt as nat, elapsed as nat, interval as nat),
        r % interval == 0,
        r >= elapsed,
{
    proof {
        lemma_deadline_facts(attempt as nat, elapsed as nat, interval as nat);
    }
    let target: u64 = interval * (attempt as u64 + 1);
    if elapsed > target {
        let delay: u64 = elapsed - target;
        let q: u64 = delay / interval;
        assert(interval * q <= delay) by (nonlinear_arith)
            requires
                interval > 0,
                q == delay / interval,
        ;
        assert(interval * (1 + q) == interval + interval * q) by (nonlinear_arith);
        target + interval * (1 + q)
    } else {
        target
    }
}

/// How long a worker pauses after attempt `attempt`, which completed `elapsed` time
/// units after run start, before issuing the next attempt.
pub fn sleep_duration(attempt: u32, elapsed: u64, interval: u64) -> (r: u64)
    requires
        interval > 0,
        interval * (attempt + 1) <= u64::MAX,
        elapsed + interval <= u64::MAX,
    ensures
        r == next_deadline_spec(attempt as nat, elapsed as nat, interval as nat) - elapsed,
        (elapsed + r) % (interval as int) == 0,
        elapsed > interval * (attempt + 1) ==> 0 < r <= interval,
{
    proof {
        lemma_deadline_facts(attempt as nat, elapsed as nat, interval as nat);
    }
    let deadline = next_deadline(attempt, elapsed, interval);
    deadline - elapsed
}

} // verus!
