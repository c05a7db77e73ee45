//! Trusted wrappers around std's clocks: a monotonic reading for elapsed
//! time and a wall-clock reading for timestamps.

use vstd::prelude::*;

verus! {

#[verifier::external_type_specification]
#[verifier::external_body]
pub struct ExInstant(std::time::Instant);

/// Relies on std::time::Instant::now. The reading is a point on a
/// monotonic clock; nothing can be promised of its value.
#[verifier::external_body]
pub fn monotonic_now() -> std::time::Instant {
    std::time::Instant::now()
}

/// Relies on std::time::Instant::duration_since and Duration::as_nanos.
/// The result depends on the time of the call, so nothing is promised of
/// its value; an elapsed time beyond u64 nanoseconds (centuries) is capped.
#[verifier::external_body]
pub fn elapsed_nanos_since(earlier: &std::time::Instant) -> u64 {
    let nanos = std::time::Instant::now().duration_since(*earlier).as_nanos();
    match u64::try_from(nanos) {
        Ok(n) => n,
        Err(_) => u64::MAX,
    }
}

/// Relies on std::time::SystemTime::now and duration_since(UNIX_EPOCH):
/// seconds and sub-second nanoseconds since the Unix epoch, with the
/// nanosecond part below one billion; a clock before the epoch reads as
/// zero. The value depends on the time of the call.
#[verifier::external_body]
pub fn wall_clock_now() -> (r: (u64, u32))
    ensures
        r.1 < 1_000_000_000,
{
    match std::time::SystemTime::now().duration_since(std::time::UNIX_EPOCH) {
        Ok(d) => (d.as_secs(), d.subsec_nanos()),
        Err(_) => (0, 0),
    }
}

} // verus!
