//! The decisions of one worker, as a state machine: the caller performs each action
//! on the device client (initialize, check, sleep, destroy) and reports its outcome.

use vstd::prelude::*;
use crate::pacing::{ATTEMPT_INTERVAL_MS, next_deadline_spec, sleep_duration};
use crate::recorder::LatencyRecorder;

verus! {

/// What the worker asks its caller to do next.
#[derive(PartialEq, Eq, Structural, Debug, Clone, Copy)]
pub enum WorkerAction {
    /// Initialize the device client, then report its status.
    Initialize,
    /// Run one timed update check, then report its duration.
    Check,
    /// Pause for the given number of milliseconds before the next check.
    Sleep { millis: u64 },
    /// Destroy the device client.
    Destroy,
    /// Nothing is left to do.
    Done,
}

/// The outcome the worker waits for.
#[derive(PartialEq, Eq, Structural, Debug, Clone, Copy)]
pub enum WorkerStage {
    Initialize,
    Check,
    Sleep,
    Destroy,
    Done,
}

/// One device's run of `attempts_count` paced update checks.
pub struct WorkerSession {
    device_number: u32,
    attempts_count: u32,
    calculate_statistics: bool,
    stage: WorkerStage,
    checks_done: u32,
    init_status: i32,
    recorder: LatencyRecorder,
    inits: Ghost<nat>,
    sleeps: Ghost<nat>,
    destroys: Ghost<nat>,
}

impl WorkerSession {
    pub closed spec fn attempts(&self) -> nat {
        self.attempts_count as nat
    }

    pub closed spec fn stage_spec(&self) -> WorkerStage {
        self.stage
    }

    pub closed spec fn statistics(&self) -> bool {
        self.calculate_statistics
    }

    /// Initializations performed so far.
    pub closed spec fn inits(&self) -> nat {
        self.inits@
    }

    /// Timed checks performed so far.
    pub closed spec fn checks(&self) -> nat {
        self.checks_done as nat
    }

    /// Sleeps requested so far.
    pub closed spec fn sleeps(&self) -> nat {
        self.sleeps@
    }

    /// Destructions performed so far.
    pub closed spec fn destroys(&self) -> nat {
        self.destroys@
    }

    pub closed spec fn device(&self) -> u32 {
        self.device_number
    }

    pub closed spec fn init_status_spec(&self) -> i32 {
        self.init_status
    }

    pub closed spec fn recorder_spec(&self) -> LatencyRecorder {
        self.recorder
    }

    pub closed spec fn wf(&self) -> bool {
        &&& self.attempts_count >= 1
        &&& self.recorder.wf()
        &&& self.recorder.steady_samples().len() <= self.checks_done
        &&& (!self.calculate_statistics ==> self.recorder.steady_samples().len() == 0)
        &&& (self.checks_done > 0 ==> self.recorder.steady_samples().len() < self.checks_done)
        &&& match self.stage {
            WorkerStage::Initialize => self.inits@ == 0 && self.checks_done == 0
                && self.sleeps@ == 0 && self.destroys@ == 0,
            WorkerStage::Check => self.inits@ == 1 && self.checks_done < self.attempts_count
                && self.sleeps@ == self.checks_done && self.destroys@ == 0,
            WorkerStage::Sleep => self.inits@ == 1 && 1 <= self.checks_done < self.attempts_count
                && self.sleeps@ == self.checks_done && self.destroys@ == 0,
            WorkerStage::Destroy => self.inits@ == 1 && self.checks_done == self.attempts_count
                && self.sleeps@ + 1 == self.checks_done && self.destroys@ == 0,
            WorkerStage::Done => self.inits@ == 1 && self.checks_done == self.attempts_count
                && self.sleeps@ + 1 == self.checks_done && self.destroys@ == 1,
        }
    }

    /// A worker that will perform `attempts_count` checks; its first action is to
    /// initialize the device client.
    pub fn new(
        device_number: u32,
        attempts_count: u32,
        upper_bound: u64,
        calculate_statistics: bool,
    ) -> (r: WorkerSession)
        requires
            attempts_count >= 1,
            upper_bound >= 2,
        ensures
            r.wf(),
            r.stage_spec() == WorkerStage::Initialize,
            r.device() == device_number,
            r.init_status_spec() == 0,
            r.attempts() == attempts_count,
            r.statistics() == calculate_statistics,
            r.recorder_spec().bound() == upper_bound,
            r.recorder_spec().steady_samples().len() == 0,
    {
        WorkerSession {
            device_number,
            attempts_count,
            calculate_statistics,
            stage: WorkerStage::Initialize,
            checks_done: 0,
            init_status: 0,
            recorder: LatencyRecorder::new(upper_bound),
            inits: Ghost(0),
            sleeps: Ghost(0),
            destroys: Ghost(0),
        }
    }

    /// The first action of every worker.
    pub fn start(&self) -> (r: WorkerAction)
        requires
            self.stage_spec() == WorkerStage::Initialize,
        ensures
            r == WorkerAction::Initialize,
    {
        WorkerAction::Initialize
    }

    /// The device client was initialized with status `status`. A non-zero status is
    /// only kept for reporting: the checks go ahead.
    pub fn initialized(&mut self, status: i32) -> (r: WorkerAction)
        requires
            old(self).wf(),
            old(self).stage_spec() == WorkerStage::Initialize,
        ensures
            final(self).wf(),
            r == WorkerAction::Check,
            final(self).stage_spec() == WorkerStage::Check,
            final(self).inits() == 1,
            final(self).checks() == 0,
            final(self).init_status_spec() == status,
            final(self).attempts() == old(self).attempts(),
            final(self).statistics() == old(self).statistics(),
            final(self).device() == old(self).device(),
            final(self).recorder_spec() == old(self).recorder_spec(),
    {
        self.init_status = status;
        self.inits = Ghost(1);
        self.stage = WorkerStage::Check;
        WorkerAction::Check
    }

    /// A check completed after `duration` milliseconds, `elapsed` milliseconds after the
    /// run start. Records the duration when statistics are on, then asks for the pause
    /// before the next check, or for destruction after the last one.
    pub fn checked(&mut self, duration: u64, elapsed: u64) -> (r: WorkerAction)
        requires
            old(self).wf(),
            old(self).stage_spec() == WorkerStage::Check,
            elapsed <= u64::MAX - ATTEMPT_INTERVAL_MS,
        ensures
            final(self).wf(),
            final(self).checks() == old(self).checks() + 1,
            final(self).attempts() == old(self).attempts(),
            final(self).statistics() == old(self).statistics(),
            final(self).device() == old(self).device(),
            final(self).init_status_spec() == old(self).init_status_spec(),
            final(self).checks() == final(self).attempts() ==> r == WorkerAction::Destroy
                && final(self).stage_spec() == WorkerStage::Destroy,
            final(self).checks() < final(self).attempts() ==> final(self).stage_spec()
                == WorkerStage::Sleep && r == (WorkerAction::Sleep {
                millis: (next_deadline_spec(
                    old(self).checks(),
                    elapsed as nat,
                    ATTEMPT_INTERVAL_MS as nat,
                ) - elapsed) as u64,
            }),
            !old(self).statistics() ==> final(self).recorder_spec() == old(self).recorder_spec(),
            old(self).statistics() && old(self).checks() == 0 ==> {
                &&& final(self).recorder_spec().initial_spec() == duration
                &&& final(self).recorder_spec().steady_samples() == old(
                    self,
                ).recorder_spec().steady_samples()
                &&& final(self).recorder_spec().overflow_spec() == old(
                    self,
                ).recorder_spec().overflow_spec()
            },
            old(self).statistics() && old(self).checks() > 0 ==> {
                &&& final(self).recorder_spec().initial_spec() == old(
                    self,
                ).recorder_spec().initial_spec()
                &&& final(self).recorder_spec().steady_samples() == old(
                    self,
                ).recorder_spec().steady_samples().push(duration)
            },
            final(self).recorder_spec().bound() == old(self).recorder_spec().bound(),
    {
        let attempt = self.checks_done;
        if self.calculate_statistics {
            self.recorder.record(attempt, duration);
        }
        self.checks_done = attempt + 1;
        if self.checks_done == self.attempts_count {
            self.stage = WorkerStage::Destroy;
            WorkerAction::Destroy
        } else {
            let millis = sleep_duration(attempt, elapsed, ATTEMPT_INTERVAL_MS);
            self.sleeps = Ghost(self.sleeps@ + 1);
            self.stage = WorkerStage::Sleep;
            WorkerAction::Sleep { millis }
        }
    }

    /// The pause ended: the next check is due.
    pub fn slept(&mut self) -> (r: WorkerAction)
        requires
            old(self).wf(),
            old(self).stage_spec() == WorkerStage::Sleep,
        ensures
            final(self).wf(),
            r == WorkerAction::Check,
            final(self).stage_spec() == WorkerStage::Check,
            final(self).checks() == old(self).checks(),
            final(self).attempts() == old(self).attempts(),
            final(self).statistics() == old(self).statistics(),
            final(self).device() == old(self).device(),
            final(self).init_status_spec() == old(self).init_status_spec(),
            final(self).recorder_spec() == old(self).recorder_spec(),
    {
        self.stage = WorkerStage::Check;
        WorkerAction::Check
    }

    /// The device client was destroyed: the worker is done.
    pub fn destroyed(&mut self) -> (r: WorkerAction)
        requires
            old(self).wf(),
            old(self).stage_spec() == WorkerStage::Destroy,
        ensures
            final(self).wf(),
            r == WorkerAction::Done,
            final(self).stage_spec() == WorkerStage::Done,
            final(self).checks() == old(self).checks(),
            final(self).attempts() == old(self).attempts(),
            final(self).statistics() == old(self).statistics(),
            final(self).device() == old(self).device(),
            final(self).init_status_spec() == old(self).init_status_spec(),
            final(self).recorder_spec() == old(self).recorder_spec(),
    {
        self.destroys = Ghost(1);
        self.stage = WorkerStage::Done;
        WorkerAction::Done
    }

    /// The outcome the worker waits for.
    pub fn stage(&self) -> (r: WorkerStage)
        ensures
            r == self.stage_spec(),
    {
        self.stage
    }

    /// Ordinal of the device, for progress lines.
    pub fn device_number(&self) -> (r: u32)
        ensures
            r == self.device(),
    {
        self.device_number
    }

    /// Number of checks performed so far.
    pub fn checks_done(&self) -> (r: u32)
        ensures
            r == self.checks(),
    {
        self.checks_done
    }

    /// Status the device client's initialization reported (0 before it is reported).
    pub fn init_status(&self) -> (r: i32)
        ensures
            r == self.init_status_spec(),
    {
        self.init_status
    }

    /// The worker's samples, once it is done.
    pub fn into_result(self) -> (r: LatencyRecorder)
        requires
            self.wf(),
            self.stage_spec() == WorkerStage::Done,
        ensures
            r == self.recorder_spec(),
            r.wf(),
            r.steady_samples().len() < self.attempts(),
    {
        self.recorder
    }
}

/// In every state of a worker, initialization comes first and happens once, checks
/// follow it and number at most the attempt count, destruction comes last and happens
/// once; a finished worker has initialized once, checked exactly the attempt count, and
/// destroyed once.
pub proof fn lemma_worker_protocol(s: WorkerSession)
    requires
        s.wf(),
    ensures
        s.inits() <= 1,
        s.destroys() <= 1,
        s.checks() <= s.attempts(),
        s.checks() > 0 ==> s.inits() == 1,
        s.destroys() == 1 ==> s.checks() == s.attempts(),
        s.stage_spec() == WorkerStage::Done ==> s.inits() == 1 && s.checks() == s.attempts()
            && s.destroys() == 1,
{
}

/// A worker sleeps only between checks: never more than one time fewer than the attempt
/// count, so never at all when it makes a single attempt.
pub proof fn lemma_sleeps_between_checks(s: WorkerSession)
    requires
        s.wf(),
    ensures
        s.sleeps() + 1 <= s.attempts(),
        s.attempts() == 1 ==> s.sleeps() == 0,
{
}

} // verus!
