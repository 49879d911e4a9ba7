//! Benchmark configuration and the slot that holds the current one.
use crate::latency::LatencyUnit;
use vstd::prelude::*;

verus! {

/// Default warm-up duration, in milliseconds.
pub const DEFAULT_WARMUP_MILLIS: u64 = 3000;

/// Default histogram precision, in significant decimal figures.
pub const DEFAULT_SIGFIG: u8 = 3;

/// Default number of probe invocations used to estimate the operation's speed.
pub const DEFAULT_STATUS_PROBE_COUNT: u32 = 3;

/// Default target interval between progress callbacks, in milliseconds.
pub const DEFAULT_STATUS_MILLIS: u64 = 1000;

/// Configuration of a benchmark run. A run reads one value of it when it starts.
#[derive(Clone, Copy, Debug, PartialEq, Eq, Structural)]
pub struct BenchCfg {
    warmup_millis: u64,
    recording_unit: LatencyUnit,
    reporting_unit: LatencyUnit,
    sigfig: u8,
    status_probe_count: u32,
    status_millis: u64,
}

impl BenchCfg {
    pub closed spec fn spec_warmup_millis(self) -> u64 {
        self.warmup_millis
    }

    pub closed spec fn spec_recording_unit(self) -> LatencyUnit {
        self.recording_unit
    }

    pub closed spec fn spec_reporting_unit(self) -> LatencyUnit {
        self.reporting_unit
    }

    pub closed spec fn spec_sigfig(self) -> u8 {
        self.sigfig
    }

    pub closed spec fn spec_status_probe_count(self) -> u32 {
        self.status_probe_count
    }

    pub closed spec fn spec_status_millis(self) -> u64 {
        self.status_millis
    }

    /// Builds a configuration from all of its settings.
    pub fn new(
        warmup_millis: u64,
        recording_unit: LatencyUnit,
        reporting_unit: LatencyUnit,
        sigfig: u8,
        status_probe_count: u32,
        status_millis: u64,
    ) -> (r: BenchCfg)
        ensures
            r.spec_warmup_millis() == warmup_millis,
            r.spec_recording_unit() == recording_unit,
            r.spec_reporting_unit() == reporting_unit,
            r.spec_sigfig() == sigfig,
            r.spec_status_probe_count() == status_probe_count,
            r.spec_status_millis() == status_millis,
    {
        BenchCfg {
            warmup_millis,
            recording_unit,
            reporting_unit,
            sigfig,
            status_probe_count,
            status_millis,
        }
    }

    /// The default configuration: 3,000 ms of warm-up, recording in nanoseconds,
    /// reporting in microseconds, 3 significant figures, 3 probe invocations and
    /// one progress callback per 1,000 ms.
    pub fn default_cfg() -> (r: BenchCfg)
        ensures
            r.spec_warmup_millis() == DEFAULT_WARMUP_MILLIS,
            r.spec_recording_unit() == LatencyUnit::Nano,
            r.spec_reporting_unit() == LatencyUnit::Micro,
            r.spec_sigfig() == DEFAULT_SIGFIG,
            r.spec_status_probe_count() == DEFAULT_STATUS_PROBE_COUNT,
            r.spec_status_millis() == DEFAULT_STATUS_MILLIS,
    {
        BenchCfg::new(
            DEFAULT_WARMUP_MILLIS,
            LatencyUnit::Nano,
            LatencyUnit::Micro,
            DEFAULT_SIGFIG,
            DEFAULT_STATUS_PROBE_COUNT,
            DEFAULT_STATUS_MILLIS,
        )
    }

    /// Number of milliseconds used to warm up the benchmark.
    pub fn warmup_millis(&self) -> (r: u64)
        ensures
            r == self.spec_warmup_millis(),
    {
        self.warmup_millis
    }

    /// Unit in which latencies are recorded.
    pub fn recording_unit(&self) -> (r: LatencyUnit)
        ensures
            r == self.spec_recording_unit(),
    {
        self.recording_unit
    }

    /// Unit in which latency statistics are reported.
    pub fn reporting_unit(&self) -> (r: LatencyUnit)
        ensures
            r == self.spec_reporting_unit(),
    {
        self.reporting_unit
    }

    /// Number of significant decimal figures kept by the latency histogram.
    pub fn sigfig(&self) -> (r: u8)
        ensures
            r == self.spec_sigfig(),
    {
        self.sigfig
    }

    /// Number of probe invocations used to estimate how fast the operation runs.
    pub fn status_probe_count(&self) -> (r: u32)
        ensures
            r == self.spec_status_probe_count(),
    {
        self.status_probe_count
    }

    /// Target interval between progress callbacks, in milliseconds.
    pub fn status_millis(&self) -> (r: u64)
        ensures
            r == self.spec_status_millis(),
    {
        self.status_millis
    }

    /// Replaces the warm-up duration.
    pub fn with_warmup_millis(self, warmup_millis: u64) -> (r: BenchCfg)
        ensures
            r.spec_warmup_millis() == warmup_millis,
            r.spec_recording_unit() == self.spec_recording_unit(),
            r.spec_reporting_unit() == self.spec_reporting_unit(),
            r.spec_sigfig() == self.spec_sigfig(),
            r.spec_status_probe_count() == self.spec_status_probe_count(),
            r.spec_status_millis() == self.spec_status_millis(),
    {
        BenchCfg { warmup_millis, ..self }
    }

    /// Replaces the recording unit.
    pub fn with_recording_unit(self, recording_unit: LatencyUnit) -> (r: BenchCfg)
        ensures
            r.spec_warmup_millis() == self.spec_warmup_millis(),
            r.spec_recording_unit() == recording_unit,
            r.spec_reporting_unit() == self.spec_reporting_unit(),
            r.spec_sigfig() == self.spec_sigfig(),
            r.spec_status_probe_count() == self.spec_status_probe_count(),
            r.spec_status_millis() == self.spec_status_millis(),
    {
        BenchCfg { recording_unit, ..self }
    }

    /// Replaces the reporting unit.
    pub fn with_reporting_unit(self, reporting_unit: LatencyUnit) -> (r: BenchCfg)
        ensures
            r.spec_warmup_millis() == self.spec_warmup_millis(),
            r.spec_recording_unit() == self.spec_recording_unit(),
            r.spec_reporting_unit() == reporting_unit,
            r.spec_sigfig() == self.spec_sigfig(),
            r.spec_status_probe_count() == self.spec_status_probe_count(),
            r.spec_status_millis() == self.spec_status_millis(),
    {
        BenchCfg { reporting_unit, ..self }
    }

    /// Replaces the histogram precision.
    pub fn with_sigfig(self, sigfig: u8) -> (r: BenchCfg)
        ensures
            r.spec_warmup_millis() == self.spec_warmup_millis(),
            r.spec_recording_unit() == self.spec_recording_unit(),
            r.spec_reporting_unit() == self.spec_reporting_unit(),
            r.spec_sigfig() == sigfig,
            r.spec_status_probe_count() == self.spec_status_probe_count(),
            r.spec_status_millis() == self.spec_status_millis(),
    {
        BenchCfg { sigfig, ..self }
    }

    /// Replaces the number of probe invocations.
    pub fn with_status_probe_count(self, status_probe_count: u32) -> (r: BenchCfg)
        ensures
            r.spec_warmup_millis() == self.spec_warmup_millis(),
            r.spec_recording_unit() == self.spec_recording_unit(),
            r.spec_reporting_unit() == self.spec_reporting_unit(),
            r.spec_sigfig() == self.spec_sigfig(),
            r.spec_status_probe_count() == status_probe_count,
            r.spec_status_millis() == self.spec_status_millis(),
    {
        BenchCfg { status_probe_count, ..self }
    }

    /// Replaces the target interval between progress callbacks.
    pub fn with_status_millis(self, status_millis: u64) -> (r: BenchCfg)
        ensures
            r.spec_warmup_millis() == self.spec_warmup_millis(),
            r.spec_recording_unit() == self.spec_recording_unit(),
            r.spec_reporting_unit() == self.spec_reporting_unit(),
            r.spec_sigfig() == self.spec_sigfig(),
            r.spec_status_probe_count() == self.spec_status_probe_count(),
            r.spec_status_millis() == status_millis,
    {
        BenchCfg { status_millis, ..self }
    }

    /// Makes `self` the configuration held by `slot`, replacing the previous one whole.
    pub fn set(self, slot: &mut CfgSlot)
        ensures
            final(slot).spec_cfg() == self,
    {
        slot.cfg = self;
    }
}

/// The place that holds the configuration which new runs read.
#[derive(Clone, Copy, Debug)]
pub struct CfgSlot {
    cfg: BenchCfg,
}

impl CfgSlot {
    pub closed spec fn spec_cfg(self) -> BenchCfg {
        self.cfg
    }

    /// A slot holding the default configuration.
    pub fn new() -> (r: CfgSlot)
        ensures
            r.spec_cfg().spec_warmup_millis() == DEFAULT_WARMUP_MILLIS,
            r.spec_cfg().spec_recording_unit() == LatencyUnit::Nano,
            r.spec_cfg().spec_reporting_unit() == LatencyUnit::Micro,
            r.spec_cfg().spec_sigfig() == DEFAULT_SIGFIG,
            r.spec_cfg().spec_status_probe_count() == DEFAULT_STATUS_PROBE_COUNT,
            r.spec_cfg().spec_status_millis() == DEFAULT_STATUS_MILLIS,
    {
        CfgSlot { cfg: BenchCfg::default_cfg() }
    }
}

/// A copy of the configuration held by `slot`.
pub fn get_bench_cfg(slot: &CfgSlot) -> (r: BenchCfg)
    ensures
        r == slot.spec_cfg(),
{
    slot.cfg
}

/// The warm-up duration, in milliseconds, of the configuration held by `slot`.
pub fn get_warmup_millis(slot: &CfgSlot) -> (r: u64)
    ensures
        r == slot.spec_cfg().spec_warmup_millis(),
{
    slot.cfg.warmup_millis
}

/// Changes the warm-up duration of the configuration held by `slot`, and nothing else.
pub fn set_warmup_millis(slot: &mut CfgSlot, millis: u64)
    ensures
        final(slot).spec_cfg().spec_warmup_millis() == millis,
        final(slot).spec_cfg().spec_recording_unit() == old(slot).spec_cfg().spec_recording_unit(),
        final(slot).spec_cfg().spec_reporting_unit() == old(slot).spec_cfg().spec_reporting_unit(),
        final(slot).spec_cfg().spec_sigfig() == old(slot).spec_cfg().spec_sigfig(),
        final(slot).spec_cfg().spec_status_probe_count() == old(slot).spec_cfg().spec_status_probe_count(),
        final(slot).spec_cfg().spec_status_millis() == old(slot).spec_cfg().spec_status_millis(),
{
    slot.cfg = slot.cfg.with_warmup_millis(millis);
}

} // verus!
