//! The online latency accumulator.
use crate::bench_cfg::BenchCfg;
use crate::histogram::{
    hist_auto, hist_auto_resize, hist_len, hist_new_with_max, hist_record, hist_reset, hist_values, LatencyHistogram,
};
use crate::latency::LatencyUnit;
use vstd::multiset::Multiset;
use vstd::prelude::*;

verus! {

broadcast use vstd::seq_lib::group_to_multiset_ensures;

/// Highest value the histogram is sized for when created; it grows beyond it on demand.
pub const HIST_HIGH: u64 = 20_000_000;

/// Sum of the values of `s`.
pub open spec fn seq_sum(s: Seq<u64>) -> int
    decreases s.len(),
{
    if s.len() == 0 {
        0
    } else {
        seq_sum(s.drop_last()) + s.last()
    }
}

/// Sum of the squares of the values of `s`.
pub open spec fn seq_sum_sq(s: Seq<u64>) -> int
    decreases s.len(),
{
    if s.len() == 0 {
        0
    } else {
        seq_sum_sq(s.drop_last()) + s.last() * s.last()
    }
}

/// Number of values of `s` that are greater than zero: those whose logarithm is defined.
pub open spec fn count_positive(s: Seq<u64>) -> nat
    decreases s.len(),
{
    if s.len() == 0 {
        0
    } else {
        count_positive(s.drop_last()) + if s.last() > 0 { 1nat } else { 0nat }
    }
}

/// Number of values of `s` that are zero.
pub open spec fn count_zeros(s: Seq<u64>) -> nat
    decreases s.len(),
{
    if s.len() == 0 {
        0
    } else {
        count_zeros(s.drop_last()) + if s.last() == 0 { 1nat } else { 0nat }
    }
}

/// The values of `s` that are greater than zero, in order: those whose logarithm
/// is defined.
pub open spec fn positives(s: Seq<u64>) -> Seq<u64>
    decreases s.len(),
{
    if s.len() == 0 {
        Seq::empty()
    } else if s.last() > 0 {
        positives(s.drop_last()).push(s.last())
    } else {
        positives(s.drop_last())
    }
}

/// `v`, or `u128::MAX` when `v` does not fit in 128 bits.
pub open spec fn saturate_u128(v: int) -> int {
    if v <= u128::MAX { v } else { u128::MAX as int }
}

/// Every recorded value is either log-eligible or zero.
pub proof fn lemma_positive_plus_zeros(s: Seq<u64>)
    ensures
        count_positive(s) + count_zeros(s) == s.len(),
    decreases s.len(),
{
    if s.len() > 0 {
        lemma_positive_plus_zeros(s.drop_last());
    }
}

proof fn lemma_sum_bound(s: Seq<u64>)
    ensures
        0 <= seq_sum(s) <= s.len() * u64::MAX,
        0 <= seq_sum_sq(s),
    decreases s.len(),
{
    if s.len() > 0 {
        lemma_sum_bound(s.drop_last());
        assert(s.last() * s.last() >= 0) by (nonlinear_arith);
        assert((s.len() - 1) * u64::MAX + u64::MAX == s.len() * u64::MAX) by (nonlinear_arith);
    }
}

/// Accumulates the logarithms of the log-eligible (non-zero) latencies of a run.
/// The logarithmic moments are real-valued, so their arithmetic lives with the
/// implementor; the accumulator decides which latencies reach it.
pub trait LnAccumulator: Sized {
    /// An accumulator that holds nothing.
    fn empty() -> Self;

    /// Adds `ln(elapsed)`.
    fn add_ln_of(&mut self, elapsed: u64)
        requires
            elapsed > 0,
    ;

    /// Forgets everything that was added.
    fn clear(&mut self);
}

/// The data resulting from benchmarking an operation: a latency histogram, the sum
/// and the sum of squares of the latencies, the number of log-eligible latencies,
/// and the logarithmic moments held by `L`. Raw latencies are not kept.
pub struct BenchOut<L> {
    recording_unit: LatencyUnit,
    reporting_unit: LatencyUnit,
    hist: LatencyHistogram,
    sum: u128,
    sum2: u128,
    n_ln: u64,
    ln: L,
    samples: Ghost<Seq<u64>>,
    ln_fed: Ghost<Seq<u64>>,
}

impl<L: LnAccumulator> BenchOut<L> {
    /// The latencies recorded since creation or the last reset, in order.
    pub closed spec fn samples(&self) -> Seq<u64> {
        self.samples@
    }

    /// The latencies handed to the log accumulator since creation or the last reset.
    pub closed spec fn ln_values(&self) -> Seq<u64> {
        self.ln_fed@
    }

    pub closed spec fn spec_recording_unit(&self) -> LatencyUnit {
        self.recording_unit
    }

    pub closed spec fn spec_reporting_unit(&self) -> LatencyUnit {
        self.reporting_unit
    }

    /// The histogram counts exactly the recorded latencies, the running sums and
    /// count agree with them (the sum of squares saturating at `u128::MAX`), and the
    /// log accumulator has been handed exactly the positive ones, in order.
    pub closed spec fn wf(&self) -> bool {
        &&& hist_values(self.hist) == self.samples@.to_multiset()
        &&& hist_auto_resize(self.hist)
        &&& self.samples@.len() <= u64::MAX
        &&& self.sum == seq_sum(self.samples@)
        &&& self.sum2 == saturate_u128(seq_sum_sq(self.samples@))
        &&& self.n_ln == count_positive(self.samples@)
        &&& self.ln_fed@ == positives(self.samples@)
    }

    /// Creates an empty accumulator with the units and histogram precision of `cfg`.
    pub fn new(cfg: &BenchCfg) -> (r: Self)
        requires
            cfg.spec_sigfig() <= 5,
        ensures
            r.wf(),
            r.samples() == Seq::<u64>::empty(),
            r.ln_values() == Seq::<u64>::empty(),
            r.spec_recording_unit() == cfg.spec_recording_unit(),
            r.spec_reporting_unit() == cfg.spec_reporting_unit(),
    {
        let created = hist_new_with_max(HIST_HIGH, cfg.sigfig());
        let mut hist = match created {
            Ok(h) => h,
            Err(_) => unreached(),
        };
        hist_auto(&mut hist, true);
        let r = BenchOut {
            recording_unit: cfg.recording_unit(),
            reporting_unit: cfg.reporting_unit(),
            hist,
            sum: 0,
            sum2: 0,
            n_ln: 0,
            ln: L::empty(),
            samples: Ghost(Seq::empty()),
            ln_fed: Ghost(Seq::empty()),
        };
        assert(r.samples@.to_multiset() =~= Multiset::empty());
        r
    }
    /// Forgets every recorded latency and clears the log accumulator; the units and
    /// the histogram precision are kept.
    pub fn reset(&mut self)
        requires
            old(self).wf(),
        ensures
            final(self).wf(),
            final(self).samples() == Seq::<u64>::empty(),
            final(self).ln_values() == Seq::<u64>::empty(),
            final(self).spec_recording_unit() == old(self).spec_recording_unit(),
            final(self).spec_reporting_unit() == old(self).spec_reporting_unit(),
    {
        hist_reset(&mut self.hist);
        self.sum = 0;
        self.sum2 = 0;
        self.n_ln = 0;
        self.ln.clear();
        self.samples = Ghost(Seq::empty());
        self.ln_fed = Ghost(Seq::empty());
        assert(self.samples@.to_multiset() =~= Multiset::empty());
    }

    /// Records one latency, `elapsed`, in the recording unit. A zero latency is
    /// counted and summed but kept out of the logarithmic moments; a positive one is
    /// handed to the log accumulator. The sum of squares saturates at `u128::MAX`.
    ///
    /// Returns whether the latency was recorded: it always is, unless `u64::MAX`
    /// latencies are already held, in which case `self` is unchanged.
    pub fn capture_data(&mut self, elapsed: u64) -> (recorded: bool)
        requires
            old(self).wf(),
        ensures
            final(self).wf(),
            final(self).spec_recording_unit() == old(self).spec_recording_unit(),
            final(self).spec_reporting_unit() == old(self).spec_reporting_unit(),
            recorded <==> old(self).samples().len() < u64::MAX,
            recorded ==> final(self).samples() == old(self).samples().push(elapsed),
            recorded ==> seq_sum(final(self).samples()) == seq_sum(old(self).samples()) + elapsed,
            recorded ==> seq_sum_sq(final(self).samples()) == seq_sum_sq(old(self).samples()) + elapsed * elapsed,
            recorded ==> count_positive(final(self).samples()) == count_positive(old(self).samples())
                + if elapsed > 0 { 1nat } else { 0nat },
            recorded ==> final(self).ln_values() == if elapsed > 0 {
                old(self).ln_values().push(elapsed)
            } else {
                old(self).ln_values()
            },
            !recorded ==> final(self).samples() == old(self).samples(),
            !recorded ==> final(self).ln_values() == old(self).ln_values(),
    {
        proof {
            lemma_sum_bound(self.samples@);
            lemma_positive_plus_zeros(self.samples@);
            assert(elapsed * elapsed <= u64::MAX * u64::MAX) by (nonlinear_arith);
        }
        if hist_len(&self.hist) == u64::MAX {
            return false;
        }
        let sq: u128 = (elapsed as u128) * (elapsed as u128);
        match hist_record(&mut self.hist, elapsed) {
            Ok(()) => {},
            Err(_) => unreached(),
        }
        let ghost old_samples = self.samples@;
        proof {
            assert(old_samples.len() * u64::MAX + u64::MAX <= u128::MAX) by (nonlinear_arith)
                requires
                    old_samples.len() < u64::MAX,
            ;
        }
        self.sum = self.sum + elapsed as u128;
        self.sum2 = self.sum2.saturating_add(sq);
        if elapsed > 0 {
            self.n_ln = self.n_ln + 1;
            self.ln.add_ln_of(elapsed);
            self.ln_fed = Ghost(self.ln_fed@.push(elapsed));
        }
        self.samples = Ghost(old_samples.push(elapsed));
        assert(self.samples@.drop_last() == old_samples);
        true
    }

    /// Unit in which latencies are recorded.
    pub fn recording_unit(&self) -> (r: LatencyUnit)
        ensures
            r == self.spec_recording_unit(),
    {
        self.recording_unit
    }

    /// Unit in which latency statistics are reported.
    pub fn reporting_unit(&self) -> (r: LatencyUnit)
        ensures
            r == self.spec_reporting_unit(),
    {
        self.reporting_unit
    }

    /// Number of recorded latencies.
    pub fn n(&self) -> (r: u64)
        requires
            self.wf(),
        ensures
            r == self.samples().len(),
    {
        hist_len(&self.hist)
    }

    /// Number of recorded latencies that are greater than zero.
    pub fn n_ln(&self) -> (r: u64)
        requires
            self.wf(),
        ensures
            r == count_positive(self.samples()),
    {
        self.n_ln
    }

    /// Sum of the recorded latencies.
    pub fn sum(&self) -> (r: u128)
        requires
            self.wf(),
        ensures
            r == seq_sum(self.samples()),
    {
        self.sum
    }

    /// Sum of the squares of the recorded latencies, saturating at `u128::MAX`.
    pub fn sum2(&self) -> (r: u128)
        requires
            self.wf(),
        ensures
            r == saturate_u128(seq_sum_sq(self.samples())),
    {
        self.sum2
    }

    /// The histogram of the recorded latencies.
    pub fn hist(&self) -> (r: &LatencyHistogram)
        requires
            self.wf(),
        ensures
            hist_values(*r) == self.samples().to_multiset(),
    {
        &self.hist
    }

    /// The logarithmic moments of the log-eligible latencies.
    pub fn ln_moments(&self) -> (r: &L) {
        &self.ln
    }
}

/// After any sequence of recordings the sample size is the number of latencies
/// recorded, and the log-eligible count is that number less the zero latencies.
pub proof fn lemma_record_counts<L: LnAccumulator>(out: BenchOut<L>)
    requires
        out.wf(),
    ensures
        count_positive(out.samples()) == out.samples().len() - count_zeros(out.samples()),
        out.samples().to_multiset().len() == out.samples().len(),
{
    lemma_positive_plus_zeros(out.samples());
}

} // verus!
