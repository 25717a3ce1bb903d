//! Per-worker classification of attempt durations.

use vstd::prelude::*;
use vstd::multiset::Multiset;
use crate::histogram::{LatencyHistogram, lowest_equivalent_value};

verus! {

/// The largest sample of `s` above `bound`, or 0 when none is.
pub open spec fn overflow_max(s: Seq<u64>, bound: u64) -> u64
    decreases s.len(),
{
    if s.len() == 0 {
        0
    } else {
        let m = overflow_max(s.drop_last(), bound);
        if s.last() > bound && s.last() > m {
            s.last()
        } else {
            m
        }
    }
}

/// The bucket values of the samples of `s` that lie within `bound`.
pub open spec fn in_range_buckets(s: Seq<u64>, bound: u64) -> Multiset<u64>
    decreases s.len(),
{
    if s.len() == 0 {
        Multiset::empty()
    } else {
        let m = in_range_buckets(s.drop_last(), bound);
        if s.last() <= bound {
            m.insert(lowest_equivalent_value(s.last()))
        } else {
            m
        }
    }
}

pub proof fn lemma_in_range_buckets_len(s: Seq<u64>, bound: u64)
    ensures
        in_range_buckets(s, bound).len() <= s.len(),
    decreases s.len(),
{
    if s.len() > 0 {
        lemma_in_range_buckets_len(s.drop_last(), bound);
    }
}

/// The overflow value is 0 exactly when no sample exceeds the bound, and otherwise it
/// is one of the samples above the bound, at least as large as each of them.
pub proof fn lemma_overflow_max_is_max(s: Seq<u64>, bound: u64)
    ensures
        overflow_max(s, bound) == 0 <==> (forall|i: int| 0 <= i < s.len() ==> s[i] <= bound),
        forall|i: int| 0 <= i < s.len() && s[i] > bound ==> s[i] <= overflow_max(s, bound),
        overflow_max(s, bound) != 0 ==> exists|i: int|
            0 <= i < s.len() && s[i] > bound && s[i] == overflow_max(s, bound),
    decreases s.len(),
{
    if s.len() > 0 {
        let t = s.drop_last();
        lemma_overflow_max_is_max(t, bound);
        assert forall|i: int| 0 <= i < t.len() implies s[i] == t[i] by {}
        if overflow_max(s, bound) != 0 {
            if overflow_max(s, bound) == s.last() {
                assert(s[s.len() - 1] == s.last());
            } else {
                let j = choose|j: int| 0 <= j < t.len() && t[j] > bound && t[j] == overflow_max(t, bound);
                assert(s[j] == t[j]);
            }
        }
        if overflow_max(s, bound) == 0 {
            assert forall|i: int| 0 <= i < s.len() implies s[i] <= bound by {
                if i < s.len() - 1 {
                    assert(s[i] == t[i]);
                }
            }
        }
    }
}

/// The samples of one worker: its first attempt's duration, kept apart, and its later
/// attempts, each either in the histogram or, when above the bound, only in the overflow
/// value.
pub struct LatencyRecorder {
    initial: u64,
    overflow: u64,
    steady_count: u64,
    hist: LatencyHistogram,
    steady: Ghost<Seq<u64>>,
}

impl LatencyRecorder {
    /// Durations of the attempts after the first, in the order observed.
    pub closed spec fn steady_samples(&self) -> Seq<u64> {
        self.steady@
    }

    pub closed spec fn initial_spec(&self) -> u64 {
        self.initial
    }

    pub closed spec fn overflow_spec(&self) -> u64 {
        self.overflow
    }

    pub closed spec fn hist_spec(&self) -> LatencyHistogram {
        self.hist
    }

    pub open spec fn bound(&self) -> u64 {
        self.hist_spec().bound()
    }

    pub closed spec fn wf(&self) -> bool {
        &&& self.hist.wf()
        &&& self.steady_count == self.steady@.len()
        &&& self.hist.samples() == in_range_buckets(self.steady@, self.hist.bound())
        &&& self.overflow == overflow_max(self.steady@, self.hist.bound())
    }

    /// Well-formedness, spelled out over the accessors.
    pub proof fn lemma_wf(&self)
        requires
            self.wf(),
        ensures
            self.hist_spec().wf(),
            self.hist_spec().samples() == in_range_buckets(self.steady_samples(), self.bound()),
            self.overflow_spec() == overflow_max(self.steady_samples(), self.bound()),
    {
    }

    /// A recorder with nothing recorded, whose histogram holds values up to `upper_bound`.
    pub fn new(upper_bound: u64) -> (r: LatencyRecorder)
        requires
            upper_bound >= 2,
        ensures
            r.wf(),
            r.bound() == upper_bound,
            r.steady_samples() == Seq::<u64>::empty(),
            r.initial_spec() == 0,
            r.overflow_spec() == 0,
            r.hist_spec().samples() =~= Multiset::<u64>::empty(),
    {
        LatencyRecorder {
            initial: 0,
            overflow: 0,
            steady_count: 0,
            hist: LatencyHistogram::new(upper_bound),
            steady: Ghost(Seq::empty()),
        }
    }

    /// Classifies the duration of attempt `attempt`: the first attempt's duration is kept
    /// as the initial duration; a later one goes into the histogram when within the bound,
    /// and otherwise only raises the overflow value to it.
    pub fn record(&mut self, attempt: u32, duration: u64)
        requires
            old(self).wf(),
            old(self).steady_samples().len() < u32::MAX,
        ensures
            final(self).wf(),
            final(self).bound() == old(self).bound(),
            attempt == 0 ==> {
                &&& final(self).initial_spec() == duration
                &&& final(self).steady_samples() == old(self).steady_samples()
                &&& final(self).hist_spec().samples() == old(self).hist_spec().samples()
                &&& final(self).overflow_spec() == old(self).overflow_spec()
            },
            attempt != 0 ==> {
                &&& final(self).initial_spec() == old(self).initial_spec()
                &&& final(self).steady_samples() == old(self).steady_samples().push(duration)
            },
            attempt != 0 && duration <= old(self).bound() ==> {
                &&& final(self).hist_spec().samples() == old(self).hist_spec().samples().insert(
                    lowest_equivalent_value(duration),
                )
                &&& final(self).overflow_spec() == old(self).overflow_spec()
            },
            attempt != 0 && duration > old(self).bound() ==> {
                &&& final(self).hist_spec().samples() == old(self).hist_spec().samples()
                &&& final(self).overflow_spec() == if duration > old(self).overflow_spec() {
                    duration
                } else {
                    old(self).overflow_spec()
                }
            },
    {
        if attempt == 0 {
            self.initial = duration;
            return;
        }
        let ghost old_steady = self.steady@;
        proof {
            lemma_in_range_buckets_len(old_steady, self.hist.bound());
        }
        let bound = self.hist.upper_bound();
        if duration > bound {
            if duration > self.overflow {
                self.overflow = duration;
            }
        } else {
            self.hist.record(duration);
        }
        self.steady_count = self.steady_count + 1;
        self.steady = Ghost(old_steady.push(duration));
        proof {
            assert(self.steady@.drop_last() =~= old_steady);
        }
    }

    /// Duration of the first attempt (0 until it is recorded).
    pub fn initial_duration(&self) -> (r: u64)
        ensures
            r == self.initial_spec(),
    {
        self.initial
    }

    /// The largest later-attempt duration above the bound, or 0 when none was.
    pub fn overflow(&self) -> (r: u64)
        ensures
            r == self.overflow_spec(),
    {
        self.overflow
    }

    /// Number of later attempts recorded, within the bound or not.
    pub fn steady_count(&self) -> (r: u64)
        requires
            self.wf(),
        ensures
            r == self.steady_samples().len(),
    {
        self.steady_count
    }

    /// The histogram of later-attempt durations within the bound.
    pub fn histogram(&self) -> (r: &LatencyHistogram)
        ensures
            *r == self.hist_spec(),
    {
        &self.hist
    }
}

/// A duration is held in the histogram exactly when it lies within the bound; above it,
/// it shows only in the overflow value. Stated of one recording into a well-formed
/// recorder.
pub proof fn lemma_overflow_exclusive(before: LatencyRecorder, after: LatencyRecorder, d: u64)
    requires
        before.wf(),
        after.wf(),
        after.bound() == before.bound(),
        after.steady_samples() == before.steady_samples().push(d),
    ensures
        d <= before.bound() ==> after.hist_spec().samples() == before.hist_spec().samples().insert(
            lowest_equivalent_value(d),
        ) && after.overflow_spec() == before.overflow_spec(),
        d > before.bound() ==> after.hist_spec().samples() == before.hist_spec().samples()
            && after.overflow_spec() >= d && after.overflow_spec() != 0,
{
    before.lemma_wf();
    after.lemma_wf();
    assert(after.steady_samples().drop_last() =~= before.steady_samples());
}

} // verus!
