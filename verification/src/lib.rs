use vstd::prelude::*;

mod clock;
mod engine;
pub mod functions;
pub mod stats;

pub use functions::{time, time_with_args};
pub use stats::{TimerError, TimingStats};

use crate::clock::print_finished;
use crate::engine::{collect_samples, collect_samples_with_args};
use crate::stats::lemma_summary_ordered;

verus! {

/// The run count of a session that was given none.
pub const DEFAULT_RUNS: usize = 1;

/// The fixed placeholder label of a session that was given none.
pub open spec fn spec_default_label() -> Seq<char> {
    "No Label"@
}

/// The fixed placeholder label of a session that was given none.
pub fn default_label() -> (r: &'static str)
    ensures
        r@ == spec_default_label(),
{
    "No Label"
}

/// The label a session reports: the configured one, or the placeholder.
pub open spec fn label_or_default(label: Option<Seq<char>>) -> Seq<char> {
    match label {
        Some(l) => l,
        None => spec_default_label(),
    }
}

/// The run count a session executes: the configured one, or the default.
pub open spec fn runs_or_default(runs: Option<usize>) -> usize {
    match runs {
        Some(r) => r,
        None => DEFAULT_RUNS,
    }
}

/// Fluent assembly of a measurement session: collects an optional label and
/// an optional run count, then a work function (and possibly an argument
/// generator first), deferring execution to the resulting timer. Each step
/// returns a new value, so earlier configuration states stay reusable.
#[derive(Debug, PartialEq)]
pub struct TimerBuilder {
    label: Option<String>,
    runs: Option<usize>,
}

impl TimerBuilder {
    /// The configured label, if one was set.
    pub closed spec fn label_opt(&self) -> Option<Seq<char>> {
        match self.label {
            Some(l) => Some(l@),
            None => None,
        }
    }

    /// The configured run count, if one was set.
    pub closed spec fn runs_opt(&self) -> Option<usize> {
        self.runs
    }

    /// A bare configuration: no label, no run count.
    pub fn new() -> (b: TimerBuilder)
        ensures
            b.label_opt() is None,
            b.runs_opt() is None,
    {
        TimerBuilder { label: None, runs: None }
    }

    /// Set the session's label; a later call overwrites an earlier one.
    pub fn with_label(self, label: &str) -> (b: TimerBuilder)
        ensures
            b.label_opt() == Some(label@),
            b.runs_opt() == self.runs_opt(),
    {
        TimerBuilder { label: Some(label.to_string()), runs: self.runs }
    }

    /// Set the session's run count; a later call overwrites an earlier one.
    pub fn runs(self, runs: usize) -> (b: TimerBuilder)
        ensures
            b.label_opt() == self.label_opt(),
            b.runs_opt() == Some(runs),
    {
        TimerBuilder { label: self.label, runs: Some(runs) }
    }

    /// Supply the argument generator, turning the configuration into one
    /// whose work function takes a freshly generated argument per run; the
    /// run count resolves to its configured value or the default.
    pub fn args_fn<ArgsFn: Fn() -> Args, Args>(self, args_f: ArgsFn) -> (b: ArgsTimerBuilder<
        ArgsFn,
        Args,
    >)
        ensures
            b.label_opt() == self.label_opt(),
            b.runs_val() == runs_or_default(self.runs_opt()),
            b.arg_gen() == args_f,
    {
        ArgsTimerBuilder {
            label: self.label,
            runs: match self.runs {
                Some(r) => r,
                None => DEFAULT_RUNS,
            },
            args_f,
        }
    }

    /// Supply the work function, completing the argument-free configuration;
    /// the run count resolves to its configured value or the default.
    pub fn time_fn<F: Fn()>(self, time_fn: F) -> (t: NoArgsTimer<F>)
        ensures
            t.label_opt() == self.label_opt(),
            t.runs_val() == runs_or_default(self.runs_opt()),
            t.work() == time_fn,
            call_requires(time_fn, ()) ==> t.wf(),
    {
        NoArgsTimer {
            label: self.label,
            runs: match self.runs {
                Some(r) => r,
                None => DEFAULT_RUNS,
            },
            time_fn,
        }
    }
}

/// Parameterized configuration: an argument generator has been supplied, and
/// a work function taking the generated argument completes it.
#[verifier::reject_recursive_types(Args)]
pub struct ArgsTimerBuilder<ArgsFn, Args> where ArgsFn: Fn() -> Args {
    label: Option<String>,
    runs: usize,
    args_f: ArgsFn,
}

impl<ArgsFn, Args> ArgsTimerBuilder<ArgsFn, Args> where ArgsFn: Fn() -> Args {
    /// The configured label, if one was set.
    pub closed spec fn label_opt(&self) -> Option<Seq<char>> {
        match self.label {
            Some(l) => Some(l@),
            None => None,
        }
    }

    /// The resolved run count of the session.
    pub closed spec fn runs_val(&self) -> usize {
        self.runs
    }

    /// The argument generator the session holds.
    pub closed spec fn arg_gen(&self) -> ArgsFn {
        self.args_f
    }

    /// Supply the work function, completing the configuration.
    pub fn time_fn<F: Fn(Args)>(self, time_fn: F) -> (t: ArgsTimer<F, ArgsFn, Args>)
        ensures
            t.label_opt() == self.label_opt(),
            t.runs_val() == self.runs_val(),
            t.arg_gen() == self.arg_gen(),
            t.work() == time_fn,
            (call_requires(self.arg_gen(), ()) && (forall|a: Args|
                #[trigger] call_ensures(self.arg_gen(), (), a) ==> call_requires(
                    time_fn,
                    (a,),
                ))) ==> t.wf(),
    {
        ArgsTimer { label: self.label, runs: self.runs, time_fn, args_fn: self.args_f }
    }
}

/// A fully configured measurement session, ready to execute.
pub trait Timer {
    /// The session's callables may be invoked as the measurement loop does.
    spec fn wf(&self) -> bool;

    /// The configured label, if one was set.
    spec fn label_opt(&self) -> Option<Seq<char>>;

    /// The number of runs the session will execute.
    spec fn runs_val(&self) -> usize;

    /// Execute the session: run the work function once per run, timing each
    /// invocation with the monotonic clock, emit the completion notice, and
    /// reduce the recorded durations to a summary reported under the
    /// configured label or the placeholder. A session configured for zero
    /// runs is rejected, as the extremes of an empty duration collection are
    /// undefined.
    fn time(&self) -> (r: Result<TimingStats, TimerError>)
        requires
            self.wf(),
        ensures
            r is Err <==> self.runs_val() == 0,
            r matches Err(e) ==> e == TimerError::ZeroRuns,
            r matches Ok(stats) ==> exists|samples: Seq<u64>|
                stats.summarizes(label_or_default(self.label_opt()), samples) && samples.len()
                    == self.runs_val(),
            r matches Ok(stats) ==> stats.label@ == label_or_default(self.label_opt())
                && stats.runs == self.runs_val() && stats.min <= stats.mean <= stats.max,
    ;
}

/// Completed configuration of a session whose work takes a freshly generated
/// argument per run.
#[verifier::reject_recursive_types(Args)]
pub struct ArgsTimer<F, ArgsFn, Args> where F: Fn(Args), ArgsFn: Fn() -> Args {
    label: Option<String>,
    runs: usize,
    time_fn: F,
    args_fn: ArgsFn,
}

impl<F, ArgsFn, Args> ArgsTimer<F, ArgsFn, Args> where F: Fn(Args), ArgsFn: Fn() -> Args {
    /// The argument generator the session holds.
    pub closed spec fn arg_gen(&self) -> ArgsFn {
        self.args_fn
    }

    /// The work function the session holds.
    pub closed spec fn work(&self) -> F {
        self.time_fn
    }
}

impl<F, ArgsFn, Args> Timer for ArgsTimer<F, ArgsFn, Args> where
    F: Fn(Args),
    ArgsFn: Fn() -> Args,
 {
    /// The generator may be invoked, and the work function accepts whatever
    /// argument the generator may produce.
    open spec fn wf(&self) -> bool {
        &&& call_requires(self.arg_gen(), ())
        &&& forall|a: Args| #[trigger] call_ensures(self.arg_gen(), (), a) ==> call_requires(
            self.work(),
            (a,),
        )
    }

    closed spec fn label_opt(&self) -> Option<Seq<char>> {
        match self.label {
            Some(l) => Some(l@),
            None => None,
        }
    }

    closed spec fn runs_val(&self) -> usize {
        self.runs
    }

    fn time(&self) -> (r: Result<TimingStats, TimerError>) {
        if self.runs == 0 {
            return Err(TimerError::ZeroRuns);
        }
        let label: String = match &self.label {
            Some(l) => l.clone(),
            None => default_label().to_string(),
        };
        let samples = collect_samples_with_args(self.runs, &self.args_fn, &self.time_fn);
        let stats = TimingStats::from_samples(label, &samples);
        proof {
            lemma_summary_ordered(stats, label_or_default(self.label_opt()), samples@);
        }
        print_finished(stats.label.as_str());
        Ok(stats)
    }
}

/// Completed configuration of a session whose work takes no argument.
pub struct NoArgsTimer<F> where F: Fn() {
    label: Option<String>,
    runs: usize,
    time_fn: F,
}

impl<F: Fn()> NoArgsTimer<F> {
    /// The work function the session holds.
    pub closed spec fn work(&self) -> F {
        self.time_fn
    }
}

impl<F: Fn()> Timer for NoArgsTimer<F> {
    /// The work function may be invoked as the measurement loop does.
    open spec fn wf(&self) -> bool {
        call_requires(self.work(), ())
    }

    closed spec fn label_opt(&self) -> Option<Seq<char>> {
        match self.label {
            Some(l) => Some(l@),
            None => None,
        }
    }

    closed spec fn runs_val(&self) -> usize {
        self.runs
    }

    fn time(&self) -> (r: Result<TimingStats, TimerError>) {
        if self.runs == 0 {
            return Err(TimerError::ZeroRuns);
        }
        let label: String = match &self.label {
            Some(l) => l.clone(),
            None => default_label().to_string(),
        };
        let samples = collect_samples(self.runs, &self.time_fn);
        let stats = TimingStats::from_samples(label, &samples);
        proof {
            lemma_summary_ordered(stats, label_or_default(self.label_opt()), samples@);
        }
        print_finished(stats.label.as_str());
        Ok(stats)
    }
}

} // verus!
