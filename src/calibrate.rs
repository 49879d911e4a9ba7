//! Median latency of repeated invocations and the effort estimate of the
//! synthetic-work calibrator.
use crate::latency::{duration_nanos, latency, DURATION_NANOS_BOUND};
use std::time::Duration;
use vstd::prelude::*;

verus! {

broadcast use vstd::seq_lib::group_to_multiset_ensures;

/// `s` is in non-decreasing order.
pub open spec fn is_sorted(s: Seq<u128>) -> bool {
    forall|i: int, j: int| 0 <= i < j < s.len() ==> s[i] <= s[j]
}

/// Median of a sorted sequence: its middle value, or the mean of its two middle
/// values rounded down.
pub open spec fn median_of(s: Seq<u128>) -> int {
    let mid = s.len() as int / 2;
    if s.len() % 2 == 1 {
        s[mid] as int
    } else {
        (s[mid - 1] + s[mid]) / 2
    }
}

/// The number of iterations that extrapolates linearly from `calibration_effort`
/// iterations taking `measured_nanos` to `target_nanos`, capped at `u32::MAX`.
/// A measurement of zero is read as one nanosecond.
pub open spec fn effort_estimate(target_nanos: nat, calibration_effort: u32, measured_nanos: u128) -> int {
    let measured = if measured_nanos == 0 { 1 } else { measured_nanos as int };
    let exact = target_nanos * calibration_effort / measured;
    if exact <= u32::MAX { exact } else { u32::MAX as int }
}

/// Inserts `x` into the sorted vector `v`, keeping it sorted.
pub fn insert_sorted(v: &mut Vec<u128>, x: u128)
    requires
        is_sorted(old(v)@),
    ensures
        is_sorted(final(v)@),
        final(v)@.to_multiset() == old(v)@.to_multiset().insert(x),
{
    let mut pos: usize = 0;
    while pos < v.len() && v[pos] <= x
        invariant
            pos <= v.len(),
            forall|k: int| 0 <= k < pos ==> v@[k] <= x,
        decreases v.len() - pos,
    {
        pos = pos + 1;
    }
    let ghost before = v@;
    v.insert(pos, x);
    proof {
        assert(v@.to_multiset() == before.to_multiset().insert(x)) by {
            vstd::seq_lib::to_multiset_insert(before, pos as int, x);
        }
    }
}

/// Median of the sorted, non-empty vector `v`.
pub fn median_of_sorted(v: &Vec<u128>) -> (r: u128)
    requires
        v@.len() > 0,
        is_sorted(v@),
    ensures
        r == median_of(v@),
{
    let len = v.len();
    if len % 2 == 1 {
        v[len / 2]
    } else {
        let lo = v[len / 2 - 1];
        let hi = v[len / 2];
        lo + (hi - lo) / 2
    }
}

/// Invokes `f` `runs` times (once when `runs` is 0 or 1) and returns the median of
/// the latencies, in nanoseconds.
pub fn median_latency_nanos<F: Fn()>(f: &F, runs: usize) -> (r: u128)
    requires
        f.requires(()),
    ensures
        f.ensures((), ()),
        exists|s: Seq<u128>|
            s.len() == if runs <= 1 { 1 } else { runs as int } && is_sorted(s) && r == median_of(s),
{
    let count: usize = if runs <= 1 { 1 } else { runs };
    let mut lats: Vec<u128> = Vec::new();
    let mut i: usize = 0;
    while i < count
        invariant
            i <= count,
            lats@.len() == i,
            is_sorted(lats@),
            f.requires(()),
            i > 0 ==> f.ensures((), ()),
        decreases count - i,
    {
        let elapsed = latency(f);
        insert_sorted(&mut lats, elapsed.as_nanos());
        assert(lats@.to_multiset().len() == lats@.len());
        i = i + 1;
    }
    median_of_sorted(&lats)
}

/// The number of iterations that should take `target_latency` when
/// `calibration_effort` iterations took `measured_nanos`; see [`effort_estimate`].
pub fn effort_for_latency(target_latency: Duration, calibration_effort: u32, measured_nanos: u128) -> (r: u32)
    ensures
        r == effort_estimate(duration_nanos(target_latency), calibration_effort, measured_nanos),
{
    let target = target_latency.as_nanos();
    let measured: u128 = if measured_nanos == 0 { 1 } else { measured_nanos };
    proof {
        assert(target * calibration_effort <= DURATION_NANOS_BOUND * u32::MAX) by (nonlinear_arith)
            requires
                target < DURATION_NANOS_BOUND,
        ;
    }
    let exact: u128 = target * (calibration_effort as u128) / measured;
    if exact <= u32::MAX as u128 {
        exact as u32
    } else {
        u32::MAX
    }
}

/// Estimates how many iterations of `work` take `target_latency`: runs `work` with
/// `calibration_effort` iterations `runs` times (once when `runs` is 0 or 1), takes
/// the median of those latencies and extrapolates linearly from it.
pub fn calibrate_work<W: Fn(u32)>(work: &W, target_latency: Duration, calibration_effort: u32, runs: usize) -> (r: u32)
    requires
        duration_nanos(target_latency) > 0,
        forall|e: u32| work.requires((e,)),
    ensures
        work.ensures((calibration_effort,), ()),
        exists|s: Seq<u128>|
            s.len() == (if runs <= 1 { 1 } else { runs as int }) && is_sorted(s)
                && r == effort_estimate(duration_nanos(target_latency), calibration_effort, #[trigger] median_of(s) as u128),
{
    let probe = || -> (u: ())
        ensures
            work.ensures((calibration_effort,), u),
    {
        work(calibration_effort)
    };
    let measured = median_latency_nanos(&probe, runs);
    let r = effort_for_latency(target_latency, calibration_effort, measured);
    proof {
        let s = choose|s: Seq<u128>|
            s.len() == (if runs <= 1 { 1 } else { runs as int }) && is_sorted(s) && measured == #[trigger] median_of(s);
        assert(median_of(s) as u128 == measured);
    }
    r
}

} // verus!
