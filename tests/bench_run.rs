use bench_utils::{
    bench_run_x, exec_report_due, status_freq_from_probe, warmup_done, warmup_report_due, BenchCfg, BenchOut, BenchStatus, LatencyUnit,
    LnAccumulator,
};
use std::cell::{Cell, RefCell};
use std::time::{Duration, Instant};

#[derive(Debug, Default)]
struct LnCount {
    n: u64,
}

impl LnAccumulator for LnCount {
    fn empty() -> Self {
        LnCount::default()
    }

    fn add_ln_of(&mut self, elapsed: u64) {
        assert!(elapsed > 0);
        self.n += 1;
    }

    fn clear(&mut self) {
        self.n = 0;
    }
}

fn spin(d: Duration) {
    let start = Instant::now();
    while start.elapsed() < d {}
}

fn no_status() -> Option<BenchStatus<fn(), fn(usize, u64, u64), fn(), fn(usize)>> {
    None
}

#[test]
fn status_freq_from_probe_values() {
    // 3 calls in 3 ms: one call per ms, 1000 per second
    assert_eq!(status_freq_from_probe(3, 3_000_000, 1000), 1000);
    // 3 calls in 30 s: at least one iteration between callbacks
    assert_eq!(status_freq_from_probe(3, 30_000_000_000, 1000), 1);
    assert_eq!(status_freq_from_probe(3, 0, 1000), 3_000_000_000);
    assert_eq!(status_freq_from_probe(0, 5, 1000), 1);
}

#[test]
fn run_records_exactly_exec_count() {
    let cfg = BenchCfg::default_cfg().with_warmup_millis(20).with_status_millis(1);
    let calls = Cell::new(0usize);
    let out: BenchOut<LnCount> = bench_run_x(
        &cfg,
        || {
            calls.set(calls.get() + 1);
            spin(Duration::from_micros(50));
        },
        37,
        no_status(),
    );
    assert_eq!(out.n(), 37);
    assert_eq!(out.n_ln(), 37);
    assert_eq!(out.ln_moments().n, 37);
    assert!(calls.get() > 37);
    assert_eq!(out.recording_unit(), LatencyUnit::Nano);
    assert_eq!(out.reporting_unit(), LatencyUnit::Micro);
}

#[test]
fn run_with_zero_exec_count_is_empty() {
    let cfg = BenchCfg::default_cfg().with_warmup_millis(5);
    let out: BenchOut<LnCount> = bench_run_x(&cfg, || spin(Duration::from_micros(10)), 0, no_status());
    assert_eq!(out.n(), 0);
    assert_eq!(out.sum(), 0);
}

#[test]
fn run_calls_progress_hooks() {
    let cfg = BenchCfg::default_cfg().with_warmup_millis(30).with_status_millis(1);
    let events = RefCell::new(Vec::<String>::new());
    let exec_seen = RefCell::new(Vec::<usize>::new());
    let warm_seen = RefCell::new(Vec::<(usize, u64, u64)>::new());
    let status = BenchStatus::new(
        || events.borrow_mut().push("pre_warmup".to_string()),
        |i: usize, e: u64, t: u64| warm_seen.borrow_mut().push((i, e, t)),
        || events.borrow_mut().push("pre_exec".to_string()),
        |i: usize| exec_seen.borrow_mut().push(i),
    );
    let out: BenchOut<LnCount> =
        bench_run_x(&cfg, || spin(Duration::from_micros(200)), 25, Some(status));
    assert_eq!(out.n(), 25);
    assert_eq!(*events.borrow(), vec!["pre_warmup".to_string(), "pre_exec".to_string()]);
    let warm = warm_seen.borrow();
    let last = warm.last().expect("warm-up status fired");
    assert!(last.1 >= 30);
    assert_eq!(last.2, 30);
    assert!(warm.iter().all(|w| w.0 % 20 == 0));
    let exec = exec_seen.borrow();
    assert_eq!(*exec.last().unwrap(), 25);
    assert!(exec.windows(2).all(|w| w[0] < w[1]));
}

#[test]
fn engine_median_of_sixty_millis() {
    let cfg = BenchCfg::default_cfg().with_warmup_millis(3000);
    let out: BenchOut<LnCount> =
        bench_run_x(&cfg, || spin(Duration::from_millis(60)), 50, no_status());
    assert_eq!(out.n(), 50);
    let median = out.hist().counts.value_at_quantile(0.5) as f64;
    let rel = (median - 60_000_000.0).abs() / 60_000_000.0;
    assert!(rel < 0.005, "median={median}");
}

#[test]
fn stop_and_report_rules() {
    assert!(warmup_done(3000, 3000));
    assert!(!warmup_done(2999, 3000));
    assert!(warmup_done(0, 0));
    assert!(warmup_report_due(20, 20, false));
    assert!(!warmup_report_due(19, 20, false));
    assert!(warmup_report_due(0, 20, true));
    assert!(exec_report_due(10, 5, 12));
    assert!(!exec_report_due(11, 5, 12));
    assert!(exec_report_due(12, 5, 12));
}

#[test]
fn zero_warmup_runs_one_batch() {
    let cfg = BenchCfg::default_cfg().with_warmup_millis(0);
    let calls = Cell::new(0usize);
    let out: BenchOut<LnCount> = bench_run_x(&cfg, || calls.set(calls.get() + 1), 5, no_status());
    assert_eq!(out.n(), 5);
    // probe burst of 3, one warm-up batch of 20, then 5 measured invocations
    assert_eq!(calls.get(), 3 + 20 + 5);
}
