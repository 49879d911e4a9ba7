//! The bucketed latency histogram, held through trusted wrappers.
use hdrhistogram::errors::{CreationError, RecordError};
use hdrhistogram::Histogram;
use vstd::multiset::Multiset;
use vstd::prelude::*;

verus! {

/// A histogram of `u64` latencies; `counts` is read, never written, outside this module.
#[verifier::external_body]
pub struct LatencyHistogram {
    pub counts: Histogram<u64>,
}

#[verifier::external_type_specification]
#[verifier::external_body]
pub struct ExCreationError(CreationError);

#[verifier::external_type_specification]
#[verifier::external_body]
pub struct ExRecordError(RecordError);

/// The values recorded into a histogram since it was created or last reset.
pub uninterp spec fn hist_values(h: LatencyHistogram) -> Multiset<u64>;

/// Whether a histogram grows its range to take any value it is given.
pub uninterp spec fn hist_auto_resize(h: LatencyHistogram) -> bool;

/// Relies on `Histogram::new_with_max`: with a lowest discernible value of 1 it fails
/// only for `high < 2` or `sigfig > 5` (the counts array it sizes holds fewer than
/// 2^24 bins, so its length always fits in `usize`); a new histogram is empty and
/// does not resize itself.
#[verifier::external_body]
pub(crate) fn hist_new_with_max(high: u64, sigfig: u8) -> (r: Result<LatencyHistogram, CreationError>)
    ensures
        r is Ok <==> (high >= 2 && sigfig <= 5),
        r is Ok ==> hist_values(r->Ok_0) =~= Multiset::empty(),
        r is Ok ==> !hist_auto_resize(r->Ok_0),
{
    Histogram::<u64>::new_with_max(high, sigfig).map(|counts| LatencyHistogram { counts })
}

/// Relies on `Histogram::auto`: only switches auto-resizing; the counts are untouched.
#[verifier::external_body]
pub(crate) fn hist_auto(h: &mut LatencyHistogram, enabled: bool)
    ensures
        hist_values(*final(h)) == hist_values(*old(h)),
        hist_auto_resize(*final(h)) == enabled,
{
    h.counts.auto(enabled)
}

/// Relies on `Histogram::record`: on success the value is counted once more; on
/// error nothing is counted. With auto-resizing on, the only error left is a resize
/// whose bin count does not fit in `usize`, which cannot happen for a histogram with
/// a lowest discernible value of 1 (at most 55 * 2^17 bins). The setting is kept.
#[verifier::external_body]
pub(crate) fn hist_record(h: &mut LatencyHistogram, value: u64) -> (r: Result<(), RecordError>)
    ensures
        hist_auto_resize(*old(h)) ==> r is Ok,
        hist_auto_resize(*final(h)) == hist_auto_resize(*old(h)),
        r is Ok ==> hist_values(*final(h)) == hist_values(*old(h)).insert(value),
        r is Err ==> hist_values(*final(h)) == hist_values(*old(h)),
{
    h.counts.record(value)
}

/// Relies on `Histogram::len`: the total count, which saturates at `u64::MAX`.
#[verifier::external_body]
pub(crate) fn hist_len(h: &LatencyHistogram) -> (r: u64)
    ensures
        r == if hist_values(*h).len() <= u64::MAX { hist_values(*h).len() } else { u64::MAX as nat },
{
    h.counts.len()
}

/// Relies on `Histogram::reset`: all counts are cleared, the configuration is kept.
#[verifier::external_body]
pub(crate) fn hist_reset(h: &mut LatencyHistogram)
    ensures
        hist_values(*final(h)) =~= Multiset::empty(),
        hist_auto_resize(*final(h)) == hist_auto_resize(*old(h)),
{
    h.counts.reset()
}

} // verus!
