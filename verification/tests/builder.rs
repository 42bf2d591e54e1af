use stopwatch::{Timer, TimerBuilder, TimerError};

const NANOS_PER_MS: u64 = 1_000_000;

fn spin_for_millis(ms: u64) {
    let start = std::time::Instant::now();
    while start.elapsed() < std::time::Duration::from_millis(ms) {}
}

#[test]
fn can_build_no_args_timer() {
    let label = "Test NoArgs Timer";
    let ms_wait_per_run: u64 = 5;
    let time_fn = || {
        spin_for_millis(ms_wait_per_run);
    };
    let runs: usize = 10;

    let stats = TimerBuilder::new().with_label(label).runs(runs).time_fn(time_fn).time().unwrap();

    assert_eq!(stats.label, label);
    assert_eq!(stats.runs, runs);

    // Values of `max`, `min`, and `mean` should be at least as long as `ms_wait_per_run`
    // Value of `total_time` should be at least `ms_wait_per_run` * `runs`
    // Can be slightly longer due to CPU scheduling
    assert!(stats.total_time >= (ms_wait_per_run * runs as u64 * NANOS_PER_MS) as u128);
    assert!(stats.max >= ms_wait_per_run * NANOS_PER_MS);
    assert!(stats.min >= ms_wait_per_run * NANOS_PER_MS);
    assert!(stats.mean >= ms_wait_per_run * NANOS_PER_MS);
}

#[test]
fn can_build_args_timer() {
    let label = "Test Args Timer";
    let ms_wait_per_run: u64 = 5;
    let args_fn = || ms_wait_per_run;
    let time_fn = |args| spin_for_millis(args);
    let runs: usize = 10;

    let stats = TimerBuilder::new()
        .with_label(label)
        .runs(runs)
        .args_fn(args_fn)
        .time_fn(time_fn)
        .time()
        .unwrap();

    assert_eq!(stats.label, label);
    assert_eq!(stats.runs, runs);

    // Values of `max`, `min`, and `mean` should be at least as long as `ms_wait_per_run`
    // Value of `total_time` should be at least `ms_wait_per_run` * `runs`
    // Can be slightly longer due to CPU scheduling
    assert!(stats.total_time >= (ms_wait_per_run * runs as u64 * NANOS_PER_MS) as u128);
    assert!(stats.max >= ms_wait_per_run * NANOS_PER_MS);
    assert!(stats.min >= ms_wait_per_run * NANOS_PER_MS);
    assert!(stats.mean >= ms_wait_per_run * NANOS_PER_MS);
}

#[test]
fn builder_defaults_to_one_run() {
    let stats = TimerBuilder::new().time_fn(|| {}).time().unwrap();
    assert_eq!(stats.runs, 1);
}

#[test]
fn builder_defaults_to_placeholder_label() {
    let stats = TimerBuilder::new().runs(2).time_fn(|| {}).time().unwrap();
    assert_eq!(stats.label, "No Label");
}

#[test]
fn builder_last_write_wins() {
    let stats = TimerBuilder::new()
        .with_label("first")
        .runs(4)
        .with_label("second")
        .runs(2)
        .time_fn(|| {})
        .time()
        .unwrap();
    assert_eq!(stats.label, "second");
    assert_eq!(stats.runs, 2);
}

#[test]
fn builder_zero_runs_are_rejected() {
    let r = TimerBuilder::new().runs(0).time_fn(|| {}).time();
    assert_eq!(r, Err(TimerError::ZeroRuns));
}

#[test]
fn builder_states_are_reusable() {
    let base = TimerBuilder::new().with_label("shared");
    let one = base.runs(1).time_fn(|| {}).time().unwrap();
    assert_eq!(one.label, "shared");
    assert_eq!(one.runs, 1);
}

#[test]
fn builder_args_path_defaults_to_one_run() {
    let stats = TimerBuilder::new()
        .args_fn(|| 3u64)
        .time_fn(|_arg: u64| {})
        .time()
        .unwrap();
    assert_eq!(stats.runs, 1);
    assert_eq!(stats.label, "No Label");
}
