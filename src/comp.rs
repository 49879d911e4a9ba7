//! Pairing of two benchmark outputs for comparison.
use crate::bench_out::{BenchOut, LnAccumulator};
use vstd::prelude::*;

verus! {

/// The outputs of benchmarking two operations, `f1` and `f2`, recorded and reported
/// in the same units. Differences and ratios read `f1` against `f2`.
pub struct Comp<'a, L> {
    f1: &'a BenchOut<L>,
    f2: &'a BenchOut<L>,
}

impl<'a, L: LnAccumulator> Comp<'a, L> {
    pub closed spec fn spec_f1(&self) -> &'a BenchOut<L> {
        self.f1
    }

    pub closed spec fn spec_f2(&self) -> &'a BenchOut<L> {
        self.f2
    }

    /// Pairs `f1_out` with `f2_out`; both must use the same recording unit and the
    /// same reporting unit.
    pub fn new(f1_out: &'a BenchOut<L>, f2_out: &'a BenchOut<L>) -> (r: Self)
        requires
            f1_out.spec_recording_unit() == f2_out.spec_recording_unit(),
            f1_out.spec_reporting_unit() == f2_out.spec_reporting_unit(),
        ensures
            r.spec_f1() == f1_out,
            r.spec_f2() == f2_out,
    {
        Comp { f1: f1_out, f2: f2_out }
    }

    /// Output for `f1`.
    pub fn f1_out(&self) -> (r: &'a BenchOut<L>)
        ensures
            r == self.spec_f1(),
    {
        self.f1
    }

    /// Output for `f2`.
    pub fn f2_out(&self) -> (r: &'a BenchOut<L>)
        ensures
            r == self.spec_f2(),
    {
        self.f2
    }
}

} // verus!
