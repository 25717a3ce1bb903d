//! Bounded latency histograms, kept by hdrhistogram.
//!
//! Every histogram of this library tracks values from 1 to an upper bound with two
//! significant digits. Its contents are modelled as the multiset that holds, for each
//! bucket, the bucket's lowest value as many times as the bucket's count.

use vstd::prelude::*;
use vstd::multiset::Multiset;
use hdrhistogram::{AdditionError, Counter, CreationError, Histogram, RecordError};

verus! {

/// An hdrhistogram `Histogram<u32>`, out of Verus's sight. Its type is held here because
/// Verus cannot declare `Histogram`, whose parameter is bound by hdrhistogram's `Counter`.
/// The field is public so that unverified callers can run percentile queries on it; only
/// the functions of this module change it.
#[verifier::external_body]
pub struct CountHistogram {
    pub inner: Histogram<u32>,
}

#[verifier::external_type_specification]
#[verifier::external_body]
pub struct ExCreationError(CreationError);

#[verifier::external_type_specification]
#[verifier::external_body]
pub struct ExRecordError(RecordError);

#[verifier::external_type_specification]
#[verifier::external_body]
pub struct ExAdditionError(AdditionError);

/// What a histogram holds: for each of its buckets, the bucket's lowest value, as many
/// times as the bucket's count.
pub uninterp spec fn hist_samples(h: CountHistogram) -> Multiset<u64>;

/// The configuration a histogram was made with: lowest discernible value, highest
/// trackable value and number of significant digits.
pub uninterp spec fn hist_config(h: CountHistogram) -> (u64, u64, u8);

/// What `Histogram::lowest_equivalent` returns for `v` in a histogram with lowest
/// discernible value 1 and two significant digits: the lowest value of `v`'s bucket.
pub uninterp spec fn lowest_equivalent_value(v: u64) -> u64;

/// Number of significant digits every histogram of this library keeps.
pub const HISTOGRAM_SIGFIG: u8 = 2;

/// Relies on `Histogram::new_with_bounds(1, high, 2)`: the arguments are valid as soon as
/// `high >= 2`, auto-resize is off, and a new histogram has every count at zero.
#[verifier::external_body]
fn new_histogram(high: u64) -> (r: Result<CountHistogram, CreationError>)
    ensures
        high >= 2 ==> r is Ok,
        r matches Ok(h) ==> hist_samples(h) =~= Multiset::<u64>::empty() && hist_config(h) == (
        1u64,
        high,
        2u8,
        ),
{
    Histogram::new_with_bounds(1, high, HISTOGRAM_SIGFIG).map(|inner| CountHistogram { inner })
}

/// Relies on `Histogram::record`: a value no larger than the highest trackable value has a
/// bucket, whose count grows by one (no saturation below `u32::MAX` samples in all);
/// the configuration does not change, since auto-resize is off.
#[verifier::external_body]
fn record_value(h: &mut CountHistogram, v: u64) -> (r: Result<(), RecordError>)
    requires
        hist_config(*old(h)).0 == 1,
        hist_config(*old(h)).2 == 2,
        v <= hist_config(*old(h)).1,
        hist_samples(*old(h)).len() < u32::MAX,
    ensures
        r is Ok,
        hist_samples(*final(h)) == hist_samples(*old(h)).insert(lowest_equivalent_value(v)),
        hist_config(*final(h)) == hist_config(*old(h)),
{
    h.inner.record(v)
}

/// Relies on `Histogram::add`: for two histograms of one configuration the counts are
/// added bucket by bucket (no saturation while the total stays within `u32::MAX`), and the
/// configuration of the receiver does not change.
#[verifier::external_body]
fn add_histogram(h: &mut CountHistogram, other: &CountHistogram) -> (r: Result<(), AdditionError>)
    requires
        hist_config(*old(h)) == hist_config(*other),
        hist_samples(*old(h)).len() + hist_samples(*other).len() <= u32::MAX,
    ensures
        r is Ok,
        hist_samples(*final(h)) == hist_samples(*old(h)).add(hist_samples(*other)),
        hist_config(*final(h)) == hist_config(*old(h)),
{
    h.inner.add(&other.inner)
}

/// Relies on `Histogram::len`: the total number of samples recorded, which is the sum of
/// the bucket counts as long as no count has saturated (the bounds on the callers'
/// sample totals keep every count below `u32::MAX`).
#[verifier::external_body]
fn histogram_len(h: &CountHistogram) -> (r: u64)
    ensures
        r == hist_samples(*h).len(),
{
    h.inner.len()
}

/// A histogram of durations from 1 to `upper_bound`, kept to two significant digits.
pub struct LatencyHistogram {
    upper_bound: u64,
    hist: CountHistogram,
}

impl LatencyHistogram {
    /// The samples held, each as the lowest value of its bucket.
    pub closed spec fn samples(&self) -> Multiset<u64> {
        hist_samples(self.hist)
    }

    pub closed spec fn bound(&self) -> u64 {
        self.upper_bound
    }

    pub closed spec fn wf(&self) -> bool {
        &&& self.upper_bound >= 2
        &&& hist_config(self.hist) == (1u64, self.upper_bound, 2u8)
        &&& hist_samples(self.hist).len() <= u32::MAX
    }

    /// An empty histogram with values from 1 to `upper_bound`.
    pub fn new(upper_bound: u64) -> (r: LatencyHistogram)
        requires
            upper_bound >= 2,
        ensures
            r.wf(),
            r.bound() == upper_bound,
            r.samples() =~= Multiset::<u64>::empty(),
    {
        let hist = new_histogram(upper_bound).unwrap();
        LatencyHistogram { upper_bound, hist }
    }

    /// Adds one sample. Only values within the bound are representable.
    pub fn record(&mut self, value: u64)
        requires
            old(self).wf(),
            value <= old(self).bound(),
            old(self).samples().len() < u32::MAX,
        ensures
            final(self).wf(),
            final(self).bound() == old(self).bound(),
            final(self).samples() == old(self).samples().insert(lowest_equivalent_value(value)),
    {
        let r = record_value(&mut self.hist, value);
        proof {
            assert(r is Ok);
        }
    }

    /// Adds every sample of `other`, bucket by bucket.
    pub fn merge(&mut self, other: &LatencyHistogram)
        requires
            old(self).wf(),
            other.wf(),
            other.bound() == old(self).bound(),
            old(self).samples().len() + other.samples().len() <= u32::MAX,
        ensures
            final(self).wf(),
            final(self).bound() == old(self).bound(),
            final(self).samples() == old(self).samples().add(other.samples()),
    {
        let r = add_histogram(&mut self.hist, &other.hist);
        proof {
            assert(r is Ok);
        }
    }

    /// Number of samples held.
    pub fn len(&self) -> (r: u64)
        ensures
            r == self.samples().len(),
    {
        histogram_len(&self.hist)
    }

    /// Largest value the histogram can hold.
    pub fn upper_bound(&self) -> (r: u64)
        ensures
            r == self.bound(),
    {
        self.upper_bound
    }

    /// The underlying histogram, for percentile queries.
    pub fn histogram(&self) -> (r: &CountHistogram)
        ensures
            hist_samples(*r) == self.samples(),
    {
        &self.hist
    }
}

/// Merging histograms does not depend on the order or grouping of the merges: merging
/// `h1`, `h2` and `h3` in any order, or `h1` with the merge of `h2` and `h3`, yields the
/// same samples, bucket for bucket.
pub proof fn lemma_merge_order_irrelevant(h1: LatencyHistogram, h2: LatencyHistogram, h3: LatencyHistogram)
    ensures
        h1.samples().add(h2.samples()) == h2.samples().add(h1.samples()),
        h1.samples().add(h2.samples()).add(h3.samples()) == h1.samples().add(
            h2.samples().add(h3.samples()),
        ),
        h1.samples().add(h2.samples()).add(h3.samples()) == h3.samples().add(h1.samples()).add(
            h2.samples(),
        ),
        h1.samples().add(h2.samples()).add(h3.samples()) == h3.samples().add(h2.samples()).add(
            h1.samples(),
        ),
        h1.samples().add(h2.samples()).add(h3.samples()) == h2.samples().add(h3.samples()).add(
            h1.samples(),
        ),
{
    let (a, b, c) = (h1.samples(), h2.samples(), h3.samples());
    assert(a.add(b) =~= b.add(a));
    assert(a.add(b).add(c) =~= a.add(b.add(c)));
    assert(a.add(b).add(c) =~= c.add(a).add(b));
    assert(a.add(b).add(c) =~= c.add(b).add(a));
    assert(a.add(b).add(c) =~= b.add(c).add(a));
}

} // verus!
