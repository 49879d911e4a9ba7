//! The measurement engine: warm-up, calibration of the progress-callback
//! frequency, and the measurement phase.
use crate::bench_cfg::BenchCfg;
use crate::bench_out::{BenchOut, LnAccumulator};
use crate::latency::{latency, LatencyUnit};
use std::time::Instant;
use vstd::prelude::*;

verus! {

/// Number of invocations between two readings of the clock during warm-up.
pub const WARMUP_BATCH: usize = 20;

/// Number of iterations between progress callbacks: the iterations per millisecond
/// seen in a probe of `probe_count` invocations that took `probe_nanos`, times
/// `status_millis`, kept within `1..=usize::MAX`. A probe time of zero is read as
/// one nanosecond.
pub open spec fn status_freq_estimate(probe_count: u32, probe_nanos: u128, status_millis: u64) -> int {
    let nanos = if probe_nanos == 0 { 1 } else { probe_nanos as int };
    let freq = probe_count * status_millis * 1_000_000 / nanos;
    if freq < 1 {
        1
    } else if freq > usize::MAX {
        usize::MAX as int
    } else {
        freq
    }
}

/// The progress callbacks of a run: `pre_warmup` once before warm-up,
/// `warmup_status` during warm-up with the invocations so far, the elapsed and the
/// target warm-up milliseconds, `pre_exec` once before measurement, and
/// `exec_status` during measurement with the invocations so far. They observe the
/// run and never steer it.
pub struct BenchStatus<F1, F2, F3, F4> {
    pre_warmup: F1,
    warmup_status: F2,
    pre_exec: F3,
    exec_status: F4,
}

impl<F1: Fn(), F2: FnMut(usize, u64, u64), F3: Fn(), F4: FnMut(usize)> BenchStatus<F1, F2, F3, F4> {
    /// Groups the four callbacks.
    pub fn new(pre_warmup: F1, warmup_status: F2, pre_exec: F3, exec_status: F4) -> Self {
        BenchStatus { pre_warmup, warmup_status, pre_exec, exec_status }
    }
}

/// Every callback of the given types can be invoked on any arguments.
pub open spec fn hooks_callable<F1: Fn(), F2: FnMut(usize, u64, u64), F3: Fn(), F4: FnMut(usize)>() -> bool {
    &&& forall|g: F1| g.requires(())
    &&& forall|g: F2, i: usize, e: u64, t: u64| g.requires((i, e, t))
    &&& forall|g: F3| g.requires(())
    &&& forall|g: F4, i: usize| g.requires((i,))
}

/// Iterations between progress callbacks for a probe of `probe_count` invocations
/// that took `probe_nanos`; see [`status_freq_estimate`].
pub fn status_freq_from_probe(probe_count: u32, probe_nanos: u128, status_millis: u64) -> (r: usize)
    ensures
        r == status_freq_estimate(probe_count, probe_nanos, status_millis),
{
    let nanos: u128 = if probe_nanos == 0 { 1 } else { probe_nanos };
    proof {
        assert(probe_count * status_millis <= u32::MAX * u64::MAX) by (nonlinear_arith);
        assert(probe_count * status_millis * 1_000_000 <= u32::MAX * u64::MAX * 1_000_000) by (nonlinear_arith);
    }
    let freq: u128 = (probe_count as u128) * (status_millis as u128) * 1_000_000 / nanos;
    if freq < 1 {
        1
    } else if freq > usize::MAX as u128 {
        usize::MAX
    } else {
        freq as usize
    }
}

impl BenchCfg {
    /// Runs the probe burst of `f` and derives from its time the number of iterations
    /// between progress callbacks; see [`status_freq_estimate`].
    pub fn status_freq<F: FnMut()>(&self, f: &mut F) -> (r: usize)
        requires
            forall|g: F| g.requires(()),
        ensures
            self.spec_status_probe_count() > 0 ==> call_ensures(*old(f), (), ()),
            r >= 1,
            exists|m: u128| r == #[trigger] status_freq_estimate(self.spec_status_probe_count(), m, self.spec_status_millis()),
    {
        let count = self.status_probe_count();
        let start = Instant::now();
        let mut i: u32 = 0;
        let ghost first = *f;
        while i < count
            invariant
                forall|g: F| g.requires(()),
                i > 0 ==> call_ensures(first, (), ()),
                i == 0 ==> *f == first,
                first == *old(f),
            decreases count - i,
        {
            f();
            i = i + 1;
        }
        let probe_nanos = Instant::now().duration_since(start).as_nanos();
        status_freq_from_probe(count, probe_nanos, self.status_millis())
    }
}

/// Whether warm-up is over once `elapsed_millis` of it have passed.
pub fn warmup_done(elapsed_millis: u128, warmup_millis: u64) -> (r: bool)
    ensures
        r == (elapsed_millis >= warmup_millis),
{
    elapsed_millis >= warmup_millis as u128
}

/// Whether the warm-up callback fires after a batch: once `status_freq` invocations
/// have passed since it last fired, and after the last batch.
pub fn warmup_report_due(since_status: usize, status_freq: usize, done: bool) -> (r: bool)
    ensures
        r == (since_status >= status_freq || done),
{
    since_status >= status_freq || done
}

/// Whether the measurement callback fires after invocation `i` of `exec_count`:
/// every `status_freq` invocations and after the last one.
pub fn exec_report_due(i: usize, status_freq: usize, exec_count: usize) -> (r: bool)
    requires
        status_freq > 0,
    ensures
        r == (i % status_freq == 0 || i == exec_count),
{
    i % status_freq == 0 || i == exec_count
}

/// The clock readings, in whole milliseconds, taken after each warm-up batch obey
/// the stopping rule: every reading but the last is below `warmup_millis`, and the
/// last reaches it unless the invocation count could not grow by another batch.
pub open spec fn warmup_stopped_at(readings: Seq<u128>, warmup_millis: u64, invocations: usize) -> bool {
    &&& readings.len() >= 1
    &&& readings.len() * WARMUP_BATCH == invocations
    &&& forall|k: int| 0 <= k < readings.len() - 1 ==> #[trigger] readings[k] < warmup_millis
    &&& (readings.last() >= warmup_millis || invocations > usize::MAX - WARMUP_BATCH)
}

/// Warms up by invoking `f` in batches of [`WARMUP_BATCH`], recording each latency
/// into the empty `out`, and stops after the first batch at whose end the elapsed
/// time has reached `warmup_millis` (or when the invocation count cannot grow by
/// another batch). `warmup_status` fires as [`warmup_report_due`] says. Returns the
/// number of invocations.
fn warmup<L: LnAccumulator, F: FnMut(), F1: Fn(), F2: FnMut(usize, u64, u64), F3: Fn(), F4: FnMut(usize)>(
    out: &mut BenchOut<L>,
    unit: LatencyUnit,
    f: &mut F,
    status_freq: usize,
    warmup_millis: u64,
    status: &mut Option<BenchStatus<F1, F2, F3, F4>>,
) -> (invocations: usize)
    requires
        old(out).wf(),
        old(out).samples().len() == 0,
        forall|g: F| g.requires(()),
        hooks_callable::<F1, F2, F3, F4>(),
    ensures
        final(out).wf(),
        final(out).spec_recording_unit() == old(out).spec_recording_unit(),
        final(out).spec_reporting_unit() == old(out).spec_reporting_unit(),
        final(out).samples().len() == invocations,
        invocations >= WARMUP_BATCH,
        invocations % WARMUP_BATCH == 0,
        exists|readings: Seq<u128>| #[trigger] warmup_stopped_at(readings, warmup_millis, invocations),
        warmup_millis == 0 ==> invocations == WARMUP_BATCH,
{
    if let Some(s) = status {
        (s.pre_warmup)();
    }
    let start = Instant::now();
    let mut total: usize = 0;
    let mut since_status: usize = 0;
    let ghost mut readings: Seq<u128> = Seq::empty();
    while total <= usize::MAX - WARMUP_BATCH
        invariant_except_break
            forall|k: int| 0 <= k < readings.len() ==> #[trigger] readings[k] < warmup_millis,
        invariant
            out.wf(),
            out.spec_recording_unit() == old(out).spec_recording_unit(),
            out.spec_reporting_unit() == old(out).spec_reporting_unit(),
            out.samples().len() == total,
            readings.len() * WARMUP_BATCH == total,
            since_status <= total,
            forall|g: F| g.requires(()),
            hooks_callable::<F1, F2, F3, F4>(),
        ensures
            total >= WARMUP_BATCH,
            out.samples().len() == total,
            readings.len() * WARMUP_BATCH == total,
            warmup_stopped_at(readings, warmup_millis, total),
        decreases usize::MAX - total,
    {
        let mut j: usize = 0;
        while j < WARMUP_BATCH
            invariant
                j <= WARMUP_BATCH,
                out.wf(),
                out.spec_recording_unit() == old(out).spec_recording_unit(),
                out.spec_reporting_unit() == old(out).spec_reporting_unit(),
                out.samples().len() == total + j,
                total <= usize::MAX - WARMUP_BATCH,
                forall|g: F| g.requires(()),
            decreases WARMUP_BATCH - j,
        {
            let elapsed = unit.latency_as_u64(latency(&mut *f));
            out.capture_data(elapsed);
            j = j + 1;
        }
        total = total + WARMUP_BATCH;
        since_status = since_status + WARMUP_BATCH;
        let elapsed_millis = Instant::now().duration_since(start).as_millis();
        proof {
            readings = readings.push(elapsed_millis);
        }
        let done = warmup_done(elapsed_millis, warmup_millis);
        if warmup_report_due(since_status, status_freq, done) {
            if let Some(s) = status {
                let shown: u64 = if elapsed_millis > u64::MAX as u128 { u64::MAX } else { elapsed_millis as u64 };
                (s.warmup_status)(total, shown, warmup_millis);
            }
            since_status = 0;
        }
        if done {
            break;
        }
    }
    proof {
        if warmup_millis == 0 && readings.len() >= 2 {
            assert(readings[0] < warmup_millis);
        }
    }
    total
}

/// Invokes `f` exactly `exec_count` times and records each latency into `out`;
/// `exec_status` fires as [`exec_report_due`] says.
fn execute<L: LnAccumulator, F: FnMut(), F1: Fn(), F2: FnMut(usize, u64, u64), F3: Fn(), F4: FnMut(usize)>(
    out: &mut BenchOut<L>,
    unit: LatencyUnit,
    f: &mut F,
    status_freq: usize,
    exec_count: usize,
    status: &mut Option<BenchStatus<F1, F2, F3, F4>>,
)
    requires
        old(out).wf(),
        old(out).samples().len() + exec_count <= u64::MAX,
        status_freq > 0,
        forall|g: F| g.requires(()),
        hooks_callable::<F1, F2, F3, F4>(),
    ensures
        final(out).wf(),
        final(out).spec_recording_unit() == old(out).spec_recording_unit(),
        final(out).spec_reporting_unit() == old(out).spec_reporting_unit(),
        final(out).samples().len() == old(out).samples().len() + exec_count,
        final(out).samples().subrange(0, old(out).samples().len() as int) == old(out).samples(),
{
    if let Some(s) = status {
        (s.pre_exec)();
    }
    let ghost start = out.samples();
    let mut i: usize = 0;
    while i < exec_count
        invariant
            i <= exec_count,
            out.wf(),
            out.spec_recording_unit() == old(out).spec_recording_unit(),
            out.spec_reporting_unit() == old(out).spec_reporting_unit(),
            out.samples().len() == start.len() + i,
            out.samples().subrange(0, start.len() as int) == start,
            start == old(out).samples(),
            start.len() + exec_count <= u64::MAX,
            status_freq > 0,
            forall|g: F| g.requires(()),
            hooks_callable::<F1, F2, F3, F4>(),
        decreases exec_count - i,
    {
        let elapsed = unit.latency_as_u64(latency(&mut *f));
        let ghost before = out.samples();
        out.capture_data(elapsed);
        assert(out.samples().subrange(0, start.len() as int) =~= before.subrange(0, start.len() as int));
        i = i + 1;
        if exec_report_due(i, status_freq, exec_count) {
            if let Some(s) = status {
                (s.exec_status)(i);
            }
        }
    }
}

/// Benchmarks `f` under `cfg`: calibrates the progress-callback frequency, warms up
/// for `cfg.warmup_millis()` milliseconds, then discards the warm-up data and
/// records the latencies of exactly `exec_count` invocations, in the recording unit
/// of `cfg`.
pub fn bench_run_x<L: LnAccumulator, F: FnMut(), F1: Fn(), F2: FnMut(usize, u64, u64), F3: Fn(), F4: FnMut(usize)>(
    cfg: &BenchCfg,
    f: F,
    exec_count: usize,
    bench_status: Option<BenchStatus<F1, F2, F3, F4>>,
) -> (out: BenchOut<L>)
    requires
        cfg.spec_sigfig() <= 5,
        forall|g: F| g.requires(()),
        hooks_callable::<F1, F2, F3, F4>(),
    ensures
        out.wf(),
        out.samples().len() == exec_count,
        out.spec_recording_unit() == cfg.spec_recording_unit(),
        out.spec_reporting_unit() == cfg.spec_reporting_unit(),
{
    let mut f = f;
    let mut status = bench_status;
    let mut out: BenchOut<L> = BenchOut::new(cfg);
    let unit = cfg.recording_unit();
    let status_freq = cfg.status_freq(&mut f);
    warmup(&mut out, unit, &mut f, status_freq, cfg.warmup_millis(), &mut status);
    out.reset();
    execute(&mut out, unit, &mut f, status_freq, exec_count, &mut status);
    out
}

} // verus!
