use vstd::prelude::*;
use std::io::Write;

verus! {

#[verifier::external_type_specification]
#[verifier::external_body]
pub struct ExInstant(std::time::Instant);

/// Relies on std::time::Instant::now: one reading of the monotonic clock.
/// Nothing is promised of the reading, as it depends on when the call is
/// made.
#[verifier::external_body]
pub(crate) fn instant_now() -> std::time::Instant {
    std::time::Instant::now()
}

/// Relies on std::time::Instant::duration_since: the time that passed from
/// `earlier` to `later`, or zero if `earlier` is in fact the later reading;
/// it is documented not to panic. Nothing is promised of the value, as it
/// depends on when the two readings were taken.
#[verifier::external_body]
pub(crate) fn duration_between(later: &std::time::Instant, earlier: &std::time::Instant) -> std::time::Duration {
    later.duration_since(*earlier)
}

/// Relies on std::time::Duration::as_secs: the whole-second part of the
/// duration, which its u64 result carries in full.
#[verifier::external_body]
pub(crate) fn duration_secs(d: &std::time::Duration) -> u64 {
    d.as_secs()
}

/// Relies on std::time::Duration::subsec_nanos: the fractional part of the
/// duration in nanoseconds, documented to always be less than one billion.
#[verifier::external_body]
pub(crate) fn duration_subsec_nanos(d: &std::time::Duration) -> (r: u32)
    ensures
        r < 1_000_000_000,
{
    d.subsec_nanos()
}

/// Relies on the writeln macro over std::io::Stdout to emit the completion
/// notice of a session; the outcome of the write is ignored, as the notice
/// is best-effort.
#[verifier::external_body]
pub(crate) fn print_finished(label: &str) {
    let _ = writeln!(std::io::stdout(), "Finished {}...", label);
}

/// Nanoseconds from the reading `earlier` to the reading `later`, saturating
/// at `u64::MAX` (a span of roughly 584 years).
pub(crate) fn elapsed_nanos(earlier: &std::time::Instant, later: &std::time::Instant) -> u64 {
    let d = duration_between(later, earlier);
    let secs: u64 = duration_secs(&d);
    let subsec: u32 = duration_subsec_nanos(&d);
    let nanos: u128 = (secs as u128) * 1_000_000_000 + (subsec as u128);
    if nanos > u64::MAX as u128 {
        u64::MAX
    } else {
        nanos as u64
    }
}

} // verus!
