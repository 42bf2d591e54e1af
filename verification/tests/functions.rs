use stopwatch::{time, time_with_args, TimerError, TimingStats};

const NANOS_PER_MS: u64 = 1_000_000;

fn spin_for_millis(ms: u64) {
    let start = std::time::Instant::now();
    while start.elapsed() < std::time::Duration::from_millis(ms) {}
}

#[test]
fn can_time_with_no_args() {
    let label = "Test NoArgs Timer";
    let ms_wait_per_run: u64 = 5;
    let time_fn = || {
        spin_for_millis(ms_wait_per_run);
    };
    let runs: usize = 10;

    let stats = time(label, runs, time_fn).unwrap();

    assert_eq!(stats.label, label);
    assert_eq!(stats.runs, runs);

    // Values of `max`, `min`, and `mean` should be at least as long as `ms_wait_per_run`
    // Value of `total_time` should be at least `ms_wait_per_run` * `runs`
    // Can be slightly longer due to CPU scheduling
    assert!(stats.total_time >= (ms_wait_per_run * runs as u64 * NANOS_PER_MS) as u128);
    assert!(stats.max >= ms_wait_per_run * NANOS_PER_MS);
    assert!(stats.min >= ms_wait_per_run * NANOS_PER_MS);
    assert!(stats.mean >= ms_wait_per_run * NANOS_PER_MS);
}

#[test]
fn can_time_with_args() {
    let label = "Test Args Timer";
    let ms_wait_per_run: u64 = 5;
    let args_fn = || ms_wait_per_run;
    let time_fn = |args| spin_for_millis(args);
    let runs: usize = 10;

    let stats = time_with_args(label, runs, args_fn, time_fn).unwrap();

    assert_eq!(stats.label, label);
    assert_eq!(stats.runs, runs);

    // Values of `max`, `min`, and `mean` should be at least as long as `ms_wait_per_run`
    // Value of `total_time` should be at least `ms_wait_per_run` * `runs`
    // Can be slightly longer due to CPU scheduling
    assert!(stats.total_time >= (ms_wait_per_run * runs as u64 * NANOS_PER_MS) as u128);
    assert!(stats.max >= ms_wait_per_run * NANOS_PER_MS);
    assert!(stats.min >= ms_wait_per_run * NANOS_PER_MS);
    assert!(stats.mean >= ms_wait_per_run * NANOS_PER_MS);
}

#[test]
fn five_noop_runs_stay_near_zero() {
    let stats = time("A", 5, || {}).unwrap();
    assert_eq!(stats.label, "A");
    assert_eq!(stats.runs, 5);
    // A no-op run costs only the clock overhead: far below a second in all.
    assert!(stats.total_time < 1_000_000_000);
    assert!(stats.min <= stats.mean);
    assert!(stats.mean <= stats.max);
}

#[test]
fn zero_runs_are_rejected() {
    let r = time("x", 0, || {});
    assert_eq!(r, Err(TimerError::ZeroRuns));
}

#[test]
fn zero_runs_are_rejected_with_args() {
    let r = time_with_args("x", 0, || 1u64, |_arg: u64| {});
    assert_eq!(r, Err(TimerError::ZeroRuns));
}

#[test]
fn argument_generation_is_not_timed() {
    // A slow generator paired with a no-op work function: five runs spend
    // ten milliseconds generating, yet the timed total stays near zero.
    let stats = time_with_args("gen", 5, || spin_for_millis(2), |_arg: ()| {}).unwrap();
    assert!(stats.total_time < (10 * NANOS_PER_MS) as u128);
}

#[test]
fn aggregation_is_exact() {
    let samples: Vec<u64> = vec![1, 2, 3, 5];
    let stats = TimingStats::from_samples(String::from("L"), &samples);
    assert_eq!(stats.label, "L");
    assert_eq!(stats.runs, 4);
    assert_eq!(stats.total_time, 11);
    assert_eq!(stats.max, 5);
    assert_eq!(stats.min, 1);
    // 11 / 4 = 2.75, which rounds up to the nearest whole nanosecond.
    assert_eq!(stats.mean, 3);
}

#[test]
fn mean_rounds_half_up() {
    let samples: Vec<u64> = vec![1, 2];
    let stats = TimingStats::from_samples(String::from("half"), &samples);
    assert_eq!(stats.total_time, 3);
    assert_eq!(stats.mean, 2);
}

#[test]
fn single_sample_is_its_own_summary() {
    let samples: Vec<u64> = vec![7];
    let stats = TimingStats::from_samples(String::from("one"), &samples);
    assert_eq!(stats.runs, 1);
    assert_eq!(stats.total_time, 7);
    assert_eq!(stats.mean, 7);
    assert_eq!(stats.max, 7);
    assert_eq!(stats.min, 7);
}

#[test]
fn largest_samples_sum_without_overflow() {
    let samples: Vec<u64> = vec![u64::MAX, u64::MAX];
    let stats = TimingStats::from_samples(String::from("big"), &samples);
    assert_eq!(stats.total_time, 2 * (u64::MAX as u128));
    assert_eq!(stats.mean, u64::MAX);
    assert_eq!(stats.max, u64::MAX);
    assert_eq!(stats.min, u64::MAX);
}

#[test]
fn equal_samples_collapse() {
    let samples: Vec<u64> = vec![4, 4, 4];
    let stats = TimingStats::from_samples(String::from("ties"), &samples);
    assert_eq!(stats.total_time, 12);
    assert_eq!(stats.mean, 4);
    assert_eq!(stats.max, 4);
    assert_eq!(stats.min, 4);
}
