//! Run-level merge of the workers' results, after every worker has finished.

use vstd::prelude::*;
use vstd::multiset::Multiset;
use crate::histogram::{LatencyHistogram, lowest_equivalent_value};
use crate::recorder::{LatencyRecorder, overflow_max};

verus! {

pub open spec fn max_u64(a: u64, b: u64) -> u64 {
    if a >= b {
        a
    } else {
        b
    }
}

/// The bucket values of the workers' first-attempt durations that lie within `bound`.
pub open spec fn initial_buckets(rs: Seq<LatencyRecorder>, bound: u64) -> Multiset<u64>
    decreases rs.len(),
{
    if rs.len() == 0 {
        Multiset::empty()
    } else {
        let m = initial_buckets(rs.drop_last(), bound);
        let d = rs.last().initial_spec();
        if d <= bound {
            m.insert(lowest_equivalent_value(d))
        } else {
            m
        }
    }
}

/// All the workers' later-attempt histograms, added together.
pub open spec fn merged_samples(rs: Seq<LatencyRecorder>) -> Multiset<u64>
    decreases rs.len(),
{
    if rs.len() == 0 {
        Multiset::empty()
    } else {
        merged_samples(rs.drop_last()).add(rs.last().hist_spec().samples())
    }
}

/// The run's overflow value: the largest of the workers' overflow values and of the
/// first-attempt durations above `bound`.
pub open spec fn run_overflow(rs: Seq<LatencyRecorder>, bound: u64) -> u64
    decreases rs.len(),
{
    if rs.len() == 0 {
        0
    } else {
        let d = rs.last().initial_spec();
        let m = max_u64(run_overflow(rs.drop_last(), bound), rs.last().overflow_spec());
        if d > bound {
            max_u64(m, d)
        } else {
            m
        }
    }
}

/// Every duration the workers observed: for each worker in turn, its first attempt
/// followed by its later attempts.
pub open spec fn all_samples(rs: Seq<LatencyRecorder>) -> Seq<u64>
    decreases rs.len(),
{
    if rs.len() == 0 {
        Seq::empty()
    } else {
        all_samples(rs.drop_last()).push(rs.last().initial_spec()) + rs.last().steady_samples()
    }
}

proof fn lemma_overflow_max_concat(a: Seq<u64>, b: Seq<u64>, bound: u64)
    ensures
        overflow_max(a + b, bound) == max_u64(overflow_max(a, bound), overflow_max(b, bound)),
    decreases b.len(),
{
    if b.len() == 0 {
        assert(a + b =~= a);
    } else {
        lemma_overflow_max_concat(a, b.drop_last(), bound);
        assert((a + b).drop_last() =~= a + b.drop_last());
        assert((a + b).last() == b.last());
    }
}

/// The run's overflow value is the largest of all durations above the bound, whether of
/// a first attempt or of a later one and whichever worker observed it; it is 0 exactly
/// when no duration exceeded the bound.
pub proof fn lemma_run_overflow_is_max(rs: Seq<LatencyRecorder>, bound: u64)
    requires
        forall|i: int| 0 <= i < rs.len() ==> (#[trigger] rs[i]).wf() && rs[i].bound() == bound,
    ensures
        run_overflow(rs, bound) == overflow_max(all_samples(rs), bound),
        run_overflow(rs, bound) == 0 <==> (forall|i: int|
            0 <= i < all_samples(rs).len() ==> all_samples(rs)[i] <= bound),
        forall|i: int|
            0 <= i < all_samples(rs).len() && all_samples(rs)[i] > bound ==> all_samples(rs)[i]
                <= run_overflow(rs, bound),
        run_overflow(rs, bound) != 0 ==> exists|i: int|
            0 <= i < all_samples(rs).len() && all_samples(rs)[i] > bound && all_samples(rs)[i]
                == run_overflow(rs, bound),
    decreases rs.len(),
{
    if rs.len() > 0 {
        let t = rs.drop_last();
        assert forall|i: int| 0 <= i < t.len() implies (#[trigger] t[i]).wf() && t[i].bound()
            == bound by {
            assert(t[i] == rs[i]);
        }
        lemma_run_overflow_is_max(t, bound);
        let last = rs.last();
        assert(last == rs[rs.len() - 1]);
        last.lemma_wf();
        let init = seq![last.initial_spec()];
        assert(all_samples(t).push(last.initial_spec()) =~= all_samples(t) + init);
        lemma_overflow_max_concat(all_samples(t), init, bound);
        lemma_overflow_max_concat(all_samples(t) + init, last.steady_samples(), bound);
        assert(init.drop_last() =~= Seq::<u64>::empty());
        assert(overflow_max(Seq::<u64>::empty(), bound) == 0);
        assert(init.last() == last.initial_spec());
        assert(overflow_max(init, bound) == if last.initial_spec() > bound {
            last.initial_spec()
        } else {
            0
        });
        assert(last.overflow_spec() == overflow_max(last.steady_samples(), bound));
        assert(all_samples(rs) == all_samples(t) + init + last.steady_samples());
    }
    crate::recorder::lemma_overflow_max_is_max(all_samples(rs), bound);
}

/// The run-level report: device and attempt counts, the merged histograms, and the
/// overflow value.
pub struct RunReport {
    pub devices: u64,
    pub non_initial_attempts: u64,
    pub initial: LatencyHistogram,
    pub steady: LatencyHistogram,
    pub overflow: u64,
}

proof fn lemma_merged_len(rs: Seq<LatencyRecorder>, attempts: nat)
    requires
        attempts >= 1,
        forall|i: int|
            0 <= i < rs.len() ==> (#[trigger] rs[i]).wf() && rs[i].steady_samples().len()
                < attempts,
    ensures
        merged_samples(rs).len() <= rs.len() * (attempts - 1),
        initial_buckets(rs, 0).len() <= rs.len(),
    decreases rs.len(),
{
    if rs.len() > 0 {
        let t = rs.drop_last();
        assert forall|i: int| 0 <= i < t.len() implies (#[trigger] t[i]).wf()
            && t[i].steady_samples().len() < attempts by {
            assert(t[i] == rs[i]);
        }
        lemma_merged_len(t, attempts);
        let last = rs.last();
        assert(last == rs[rs.len() - 1]);
        last.lemma_wf();
        crate::recorder::lemma_in_range_buckets_len(last.steady_samples(), last.bound());
        assert(t.len() * (attempts - 1) + (attempts - 1) == rs.len() * (attempts - 1))
            by (nonlinear_arith)
            requires
                t.len() + 1 == rs.len(),
        ;
    }
}

proof fn lemma_initial_buckets_len(rs: Seq<LatencyRecorder>, bound: u64)
    ensures
        initial_buckets(rs, bound).len() <= rs.len(),
    decreases rs.len(),
{
    if rs.len() > 0 {
        lemma_initial_buckets_len(rs.drop_last(), bound);
    }
}

/// Merges the workers' results once all have finished. With statistics off nothing is
/// reported. Otherwise each first-attempt duration goes into the initial histogram, or,
/// above the bound, into the overflow value; the later-attempt histograms are added
/// together; the overflow value is the largest of all overflows.
pub fn summarize(
    results: &Vec<LatencyRecorder>,
    attempts_count: u32,
    upper_bound: u64,
    print_statistics: bool,
) -> (r: Option<RunReport>)
    requires
        attempts_count >= 1,
        upper_bound >= 2,
        results.len() * attempts_count <= u32::MAX,
        forall|i: int|
            0 <= i < results.len() ==> (#[trigger] results[i]).wf() && results[i].bound()
                == upper_bound && results[i].steady_samples().len() < attempts_count,
    ensures
        !print_statistics <==> r is None,
        r matches Some(rep) ==> {
            &&& rep.devices == results.len()
            &&& rep.non_initial_attempts == (attempts_count - 1) * results.len()
            &&& rep.initial.wf() && rep.initial.bound() == upper_bound
            &&& rep.steady.wf() && rep.steady.bound() == upper_bound
            &&& rep.initial.samples() == initial_buckets(results@, upper_bound)
            &&& rep.steady.samples() == merged_samples(results@)
            &&& rep.overflow == run_overflow(results@, upper_bound)
        },
{
    if !print_statistics {
        return None;
    }
    let mut initial = LatencyHistogram::new(upper_bound);
    let mut steady = LatencyHistogram::new(upper_bound);
    let mut overflow: u64 = 0;
    let mut i: usize = 0;
    while i < results.len()
        invariant
            0 <= i <= results.len(),
            attempts_count >= 1,
            results.len() * attempts_count <= u32::MAX,
            forall|j: int|
                0 <= j < results.len() ==> (#[trigger] results[j]).wf() && results[j].bound()
                    == upper_bound && results[j].steady_samples().len() < attempts_count,
            initial.wf(),
            initial.bound() == upper_bound,
            steady.wf(),
            steady.bound() == upper_bound,
            initial.samples() == initial_buckets(results@.take(i as int), upper_bound),
            steady.samples() == merged_samples(results@.take(i as int)),
            overflow == run_overflow(results@.take(i as int), upper_bound),
        decreases results.len() - i,
    {
        let ghost before = results@.take(i as int);
        let ghost after = results@.take(i + 1);
        proof {
            assert(after.drop_last() =~= before);
            assert(after.last() == results[i as int]);
            assert forall|j: int| 0 <= j < after.len() implies (#[trigger] after[j]).wf()
                && after[j].steady_samples().len() < attempts_count by {
                assert(after[j] == results[j]);
            }
            lemma_merged_len(after, attempts_count as nat);
            lemma_initial_buckets_len(before, upper_bound);
            assert(after.len() * (attempts_count - 1) <= results.len() * attempts_count)
                by (nonlinear_arith)
                requires
                    after.len() <= results.len(),
                    attempts_count >= 1,
            ;
            assert(results.len() <= results.len() * attempts_count) by (nonlinear_arith)
                requires
                    attempts_count >= 1,
            ;
            results[i as int].lemma_wf();
        }
        let r = &results[i];
        let d = r.initial_duration();
        if d > upper_bound {
            if d > overflow {
                overflow = d;
            }
        } else {
            initial.record(d);
        }
        steady.merge(r.histogram());
        let o = r.overflow();
        if o > overflow {
            overflow = o;
        }
        i = i + 1;
    }
    proof {
        assert(results@.take(results.len() as int) =~= results@);
        assert((attempts_count - 1) * results.len() <= results.len() * attempts_count)
            by (nonlinear_arith)
            requires
                attempts_count >= 1,
        ;
    }
    let devices = results.len() as u64;
    Some(
        RunReport {
            devices,
            non_initial_attempts: (attempts_count as u64 - 1) * devices,
            initial,
            steady,
            overflow,
        },
    )
}

} // verus!
