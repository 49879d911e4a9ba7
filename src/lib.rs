//! Micro-benchmarking harness: an adaptive measurement engine, an online
//! latency accumulator and a calibrator for synthetic work.
mod bench_cfg;
mod bench_out;
mod bench_run;
mod calibrate;
mod comp;
mod deterministic_sample;
mod histogram;
mod latency;

pub use bench_cfg::{
    get_bench_cfg, get_warmup_millis, set_warmup_millis, BenchCfg, CfgSlot, DEFAULT_SIGFIG,
    DEFAULT_STATUS_MILLIS, DEFAULT_STATUS_PROBE_COUNT, DEFAULT_WARMUP_MILLIS,
};
pub use bench_out::{
    count_positive, count_zeros, positives, saturate_u128, lemma_positive_plus_zeros, lemma_record_counts, seq_sum,
    seq_sum_sq, BenchOut, LnAccumulator, HIST_HIGH,
};
pub use bench_run::{
    bench_run_x, exec_report_due, hooks_callable, status_freq_estimate, status_freq_from_probe, BenchStatus,
    warmup_done, warmup_report_due, warmup_stopped_at, WARMUP_BATCH,
};
pub use calibrate::{
    calibrate_work, effort_estimate, effort_for_latency, insert_sorted, is_sorted,
    median_latency_nanos, median_of, median_of_sorted,
};
pub use comp::Comp;
pub use deterministic_sample::{
    lemma_uniform_index_one_to_one, uniform_index_spec, uniform_observation_index,
    uniform_sample_size,
};
pub use histogram::{hist_auto_resize, hist_values, LatencyHistogram};
pub use latency::{duration_nanos, latency, LatencyUnit, DURATION_NANOS_BOUND};
