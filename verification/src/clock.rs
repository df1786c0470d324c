//! The one capability the date and time types take from the machine: the
//! system clock.

use vstd::prelude::*;

verus! {

/// Declares `std::time::SystemTime` of std, which carries one clock
/// reading between the two calls below; nothing is assumed of its inside.
#[verifier::external_type_specification]
#[verifier::external_body]
pub struct ExSystemTime(std::time::SystemTime);

/// Relies on `std::time::SystemTime::now` of std: a reading of the system
/// clock. Nothing is promised of its value.
#[verifier::external_body]
pub fn now_system_time() -> std::time::SystemTime {
    std::time::SystemTime::now()
}

/// Relies on `std::time::SystemTime::duration_since` of std: the reading
/// converted to whole milliseconds since the Unix epoch, zero where the
/// clock reads before the epoch, and saturating where it does not fit.
/// Nothing is promised of the value.
#[verifier::external_body]
pub fn millis_since_epoch(t: &std::time::SystemTime) -> u64 {
    match t.duration_since(std::time::UNIX_EPOCH) {
        Ok(elapsed) => {
            let millis = elapsed.as_millis();
            if millis > u64::MAX as u128 {
                u64::MAX
            } else {
                millis as u64
            }
        },
        Err(_) => 0,
    }
}

/// The milliseconds of the system clock since the Unix epoch.
pub fn unix_millis_now() -> u64 {
    let now = now_system_time();
    millis_since_epoch(&now)
}

} // verus!
