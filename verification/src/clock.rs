use vstd::prelude::*;

verus! {

/// Readings of the monotonic clock.
#[verifier::external_type_specification]
#[verifier::external_body]
pub struct ExInstant(std::time::Instant);

/// Readings of the system (wall) clock.
#[verifier::external_type_specification]
#[verifier::external_body]
pub struct ExSystemTime(std::time::SystemTime);

/// `Instant::now`: the current reading of the monotonic clock. It depends on
/// the time of the call, so nothing is stated of it.
#[verifier::external_body]
pub(crate) fn instant_now() -> std::time::Instant {
    std::time::Instant::now()
}

/// `Instant::elapsed`, taken in whole nanoseconds: the time since `t`. It
/// depends on the time of the call, so nothing is stated of it.
#[verifier::external_body]
pub(crate) fn elapsed_nanos(t: &std::time::Instant) -> u128 {
    t.elapsed().as_nanos()
}

/// `SystemTime::now`: the current reading of the system clock. It depends on
/// the time of the call, so nothing is stated of it.
#[verifier::external_body]
pub(crate) fn system_time_now() -> std::time::SystemTime {
    std::time::SystemTime::now()
}

/// `SystemTime::duration_since(UNIX_EPOCH)`, taken in whole seconds; `None`
/// when `t` lies before the epoch. The reading is opaque here, so nothing
/// more is stated.
#[verifier::external_body]
pub(crate) fn unix_seconds(t: &std::time::SystemTime) -> Option<u64> {
    match t.duration_since(std::time::UNIX_EPOCH) {
        Ok(d) => Some(d.as_secs()),
        Err(_) => None,
    }
}

} // verus!
