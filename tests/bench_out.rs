use bench_utils::{BenchCfg, BenchOut, Comp, LatencyUnit, LnAccumulator};

#[derive(Debug, Default)]
struct LnSums {
    n: u64,
    sum: f64,
    sum2: f64,
}

impl LnAccumulator for LnSums {
    fn empty() -> Self {
        LnSums::default()
    }

    fn add_ln_of(&mut self, elapsed: u64) {
        assert!(elapsed > 0);
        let ln = (elapsed as f64).ln();
        self.n += 1;
        self.sum += ln;
        self.sum2 += ln * ln;
    }

    fn clear(&mut self) {
        *self = LnSums::default();
    }
}

fn new_out() -> BenchOut<LnSums> {
    BenchOut::new(&BenchCfg::default_cfg())
}

#[test]
fn counts_exclude_zeros_from_ln() {
    let mut out = new_out();
    let values = [0u64, 5, 0, 7, 1, 0, 1000];
    for (i, v) in values.iter().enumerate() {
        assert!(out.capture_data(*v));
        assert_eq!(out.n(), i as u64 + 1);
    }
    assert_eq!(out.n(), 7);
    assert_eq!(out.n_ln(), 4);
    assert_eq!(out.ln_moments().n, 4);
    assert_eq!(out.sum(), 1013);
    assert_eq!(out.sum2(), 25 + 49 + 1 + 1_000_000);
    assert_eq!(out.hist().counts.len(), 7);
}

#[test]
fn single_record_counts() {
    let mut out = new_out();
    assert_eq!(out.n(), 0);
    assert_eq!(out.n_ln(), 0);
    assert!(out.capture_data(0));
    assert_eq!(out.n(), 1);
    assert_eq!(out.n_ln(), 0);
    assert_eq!(out.sum(), 0);
}

#[test]
fn square_sum_saturates() {
    let mut out = new_out();
    assert!(out.capture_data(u64::MAX));
    let m = u64::MAX as u128;
    assert_eq!(out.sum2(), m * m);
    assert!(out.capture_data(u64::MAX));
    assert_eq!(out.n(), 2);
    assert_eq!(out.n_ln(), 2);
    assert_eq!(out.sum(), 2 * m);
    assert_eq!(out.sum2(), u128::MAX);
    assert!(out.capture_data(1));
    assert_eq!(out.sum(), 2 * m + 1);
    assert_eq!(out.sum2(), u128::MAX);
    assert_eq!(out.n(), 3);
}

#[test]
fn large_latency_square_is_exact() {
    let mut out = new_out();
    let x = 1u64 << 33;
    assert!(out.capture_data(x));
    assert!(out.capture_data(3));
    assert_eq!(out.sum2(), (x as u128) * (x as u128) + 9);
}

#[test]
fn reset_discards_everything() {
    let mut out = new_out();
    for v in [3u64, 0, 9] {
        out.capture_data(v);
    }
    out.reset();
    assert_eq!(out.n(), 0);
    assert_eq!(out.n_ln(), 0);
    assert_eq!(out.sum(), 0);
    assert_eq!(out.sum2(), 0);
    assert_eq!(out.ln_moments().n, 0);
    assert_eq!(out.hist().counts.len(), 0);
    assert_eq!(out.recording_unit(), LatencyUnit::Nano);
    assert_eq!(out.reporting_unit(), LatencyUnit::Micro);
    out.capture_data(4);
    assert_eq!(out.n(), 1);
    assert_eq!(out.sum(), 4);
}

#[test]
fn units_come_from_cfg() {
    let cfg = BenchCfg::default_cfg()
        .with_recording_unit(LatencyUnit::Micro)
        .with_reporting_unit(LatencyUnit::Milli);
    let out: BenchOut<LnSums> = BenchOut::new(&cfg);
    assert_eq!(out.recording_unit(), LatencyUnit::Micro);
    assert_eq!(out.reporting_unit(), LatencyUnit::Milli);
}

#[test]
fn histogram_median_reflects_records() {
    let mut out = new_out();
    for v in 1..=999u64 {
        out.capture_data(v * 1000);
    }
    let median = out.hist().counts.value_at_quantile(0.5);
    let rel = (median as f64 - 500_000.0).abs() / 500_000.0;
    assert!(rel < 0.002, "median={median}");
    assert_eq!(out.hist().counts.min(), 1000);
}

#[test]
fn lognormal_ln_moments_round_trip() {
    let mu = 13.0_f64;
    let sigma = (1.2_f64).ln() / 2.0;
    let k = 1000;
    let mut out = new_out();
    for i in 0..2 * k {
        let z = if i % 2 == 0 { 1.0 } else { -1.0 };
        let v = (mu + sigma * z).exp().round() as u64;
        assert!(out.capture_data(v));
    }
    let ln = out.ln_moments();
    let n = ln.n as f64;
    let mean_ln = ln.sum / n;
    let var_ln = (ln.sum2 - ln.sum * ln.sum / n) / (n - 1.0);
    let stdev_ln = var_ln.sqrt();
    let exp_stdev = sigma * (n / (n - 1.0)).sqrt();
    assert!((mean_ln - mu).abs() / mu < 0.001, "mean_ln={mean_ln}");
    assert!((stdev_ln - exp_stdev).abs() / exp_stdev < 0.001, "stdev_ln={stdev_ln}");
    assert_eq!(out.n(), 2 * k);
    assert_eq!(out.n_ln(), 2 * k);
}

#[test]
fn comp_keeps_both_outputs() {
    let mut a = new_out();
    let mut b = new_out();
    a.capture_data(10);
    b.capture_data(20);
    b.capture_data(30);
    let comp = Comp::new(&a, &b);
    assert_eq!(comp.f1_out().n(), 1);
    assert_eq!(comp.f2_out().n(), 2);
    assert_eq!(comp.f1_out().sum(), 10);
    assert_eq!(comp.f2_out().sum(), 50);
    let swapped = Comp::new(&b, &a);
    assert_eq!(swapped.f1_out().sum(), 50);
    assert_eq!(swapped.f2_out().sum(), 10);
}
