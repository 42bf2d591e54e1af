use vstd::prelude::*;
use crate::clock::{elapsed_nanos, instant_now};

verus! {

/// Invoke `work` exactly `runs` times, reading the monotonic clock
/// immediately before and after each invocation, so that the invocation
/// alone is timed. Returns one recorded duration per run, in nanoseconds.
pub(crate) fn collect_samples<F: Fn() -> O, O>(runs: usize, work: &F) -> (samples: Vec<u64>)
    requires
        call_requires(*work, ()),
    ensures
        samples@.len() == runs,
{
    let mut samples: Vec<u64> = Vec::new();
    let mut i: usize = 0;
    while i < runs
        invariant
            i <= runs,
            samples@.len() == i,
            call_requires(*work, ()),
        decreases runs - i,
    {
        let start = instant_now();
        let _ = (*work)();
        let end = instant_now();
        samples.push(elapsed_nanos(&start, &end));
        i = i + 1;
    }
    samples
}

/// As `collect_samples`, but first invoke `args_fn` before each run to
/// produce a fresh argument for `work`. Only the invocation of `work` on
/// that argument stands between the two clock readings: the generation of
/// the argument is not timed.
pub(crate) fn collect_samples_with_args<ArgsFn: Fn() -> Args, F: Fn(Args) -> O, Args, O>(
    runs: usize,
    args_fn: &ArgsFn,
    work: &F,
) -> (samples: Vec<u64>)
    requires
        call_requires(*args_fn, ()),
        forall|a: Args| #[trigger] call_ensures(*args_fn, (), a) ==> call_requires(*work, (a,)),
    ensures
        samples@.len() == runs,
{
    let mut samples: Vec<u64> = Vec::new();
    let mut i: usize = 0;
    while i < runs
        invariant
            i <= runs,
            samples@.len() == i,
            call_requires(*args_fn, ()),
            forall|a: Args| #[trigger] call_ensures(*args_fn, (), a) ==> call_requires(
                *work,
                (a,),
            ),
        decreases runs - i,
    {
        let arg = (*args_fn)();
        let start = instant_now();
        let _ = (*work)(arg);
        let end = instant_now();
        samples.push(elapsed_nanos(&start, &end));
        i = i + 1;
    }
    samples
}

} // verus!
