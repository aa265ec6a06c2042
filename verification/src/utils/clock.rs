use vstd::prelude::*;

verus! {

#[verifier::external_type_specification]
#[verifier::external_body]
/// An opaque reading of the monotonic wall clock, used only to rate-limit
/// playback position reports.
pub struct ExInstant(std::time::Instant);

/// Relies on std::time::Instant::now: takes an opaque reading of the
/// monotonic wall clock.
#[verifier::external_body]
pub fn instant_now() -> std::time::Instant {
    std::time::Instant::now()
}

/// Relies on std::time::Instant::elapsed: the wall-clock milliseconds since
/// the reading was taken. The result depends on the clock, so nothing is
/// assumed about it.
#[verifier::external_body]
pub fn elapsed_ms(since: &std::time::Instant) -> u64 {
    let millis = since.elapsed().as_millis();
    if millis > u64::MAX as u128 {
        u64::MAX
    } else {
        millis as u64
    }
}

} // verus!
