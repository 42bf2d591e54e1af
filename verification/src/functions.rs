use vstd::prelude::*;
use crate::engine::{collect_samples, collect_samples_with_args};
use crate::stats::{lemma_summary_ordered, TimerError, TimingStats};

verus! {

/// Execute `time_fn` exactly `runs` times, timing each invocation with the
/// monotonic clock, and reduce the recorded per-run durations to a summary
/// reported under `label`. A session of zero runs is rejected, as the
/// extremes of an empty duration collection are undefined.
pub fn time<F: Fn() -> O, O>(label: &str, runs: usize, time_fn: F) -> (r: Result<
    TimingStats,
    TimerError,
>)
    requires
        call_requires(time_fn, ()),
    ensures
        r is Err <==> runs == 0,
        r matches Err(e) ==> e == TimerError::ZeroRuns,
        r matches Ok(stats) ==> exists|samples: Seq<u64>|
            stats.summarizes(label@, samples) && samples.len() == runs,
        r matches Ok(stats) ==> stats.label@ == label@ && stats.runs == runs && stats.min
            <= stats.mean <= stats.max,
{
    if runs == 0 {
        return Err(TimerError::ZeroRuns);
    }
    let samples = collect_samples(runs, &time_fn);
    let stats = TimingStats::from_samples(label.to_string(), &samples);
    proof {
        lemma_summary_ordered(stats, label@, samples@);
    }
    Ok(stats)
}

/// As `time`, but invoke `args_fn` before each run to produce a fresh
/// argument for `time_fn`. Only the invocation of `time_fn` on that argument
/// is timed: the generation of the argument is excluded from the measured
/// interval.
pub fn time_with_args<F: Fn(Args) -> O, ArgsFn: Fn() -> Args, Args, O>(
    label: &str,
    runs: usize,
    args_fn: ArgsFn,
    time_fn: F,
) -> (r: Result<TimingStats, TimerError>)
    requires
        call_requires(args_fn, ()),
        forall|a: Args| #[trigger] call_ensures(args_fn, (), a) ==> call_requires(
            time_fn,
            (a,),
        ),
    ensures
        r is Err <==> runs == 0,
        r matches Err(e) ==> e == TimerError::ZeroRuns,
        r matches Ok(stats) ==> exists|samples: Seq<u64>|
            stats.summarizes(label@, samples) && samples.len() == runs,
        r matches Ok(stats) ==> stats.label@ == label@ && stats.runs == runs && stats.min
            <= stats.mean <= stats.max,
{
    if runs == 0 {
        return Err(TimerError::ZeroRuns);
    }
    let samples = collect_samples_with_args(runs, &args_fn, &time_fn);
    let stats = TimingStats::from_samples(label.to_string(), &samples);
    proof {
        lemma_summary_ordered(stats, label@, samples@);
    }
    Ok(stats)
}

} // verus!
