//! Wall-clock readings as plain integers: nanoseconds relative to the Unix
//! epoch, negative before it.
use vstd::prelude::*;

verus! {

/// Nanoseconds in the longest span a `std::time::Duration` can hold, plus one.
pub const SPAN_LIMIT: u128 = 18_446_744_073_709_551_616_000_000_000;

#[verifier::external_type_specification]
#[verifier::external_body]
pub struct ExSystemTime(std::time::SystemTime);

/// Relies on `SystemTime::now`: the current wall-clock time. Nothing is
/// known of the value it returns.
pub assume_specification[ std::time::SystemTime::now ]() -> std::time::SystemTime;

/// Relies on `SystemTime::duration_since(UNIX_EPOCH)` and `Duration::as_nanos`:
/// `Ok` with the span from the epoch to `t`, or `Err` with the span from `t`
/// to the epoch when `t` lies before it. Either span is a `Duration`, so its
/// nanoseconds stay under `SPAN_LIMIT`.
#[verifier::external_body]
fn epoch_offset(t: &std::time::SystemTime) -> (r: Result<u128, u128>)
    ensures
        match r {
            Ok(n) => n < SPAN_LIMIT,
            Err(n) => n < SPAN_LIMIT,
        },
{
    match t.duration_since(std::time::UNIX_EPOCH) {
        Ok(d) => Ok(d.as_nanos()),
        Err(e) => Err(e.duration().as_nanos()),
    }
}

/// Whether `t` is a time the system clock can report.
pub open spec fn is_clock_reading(t: int) -> bool {
    -(SPAN_LIMIT as int) < t < SPAN_LIMIT as int
}

/// The current time, in nanoseconds relative to the Unix epoch.
pub fn now() -> (t: i128)
    ensures
        is_clock_reading(t as int),
{
    let st = std::time::SystemTime::now();
    match epoch_offset(&st) {
        Ok(n) => n as i128,
        Err(n) => -(n as i128),
    }
}

/// Nanoseconds from `earlier` to `later`, as an integer of any size.
pub open spec fn span(earlier: i128, later: i128) -> int {
    later as int - earlier as int
}

/// The nanoseconds from `earlier` to `later`, or a clock error when `later`
/// comes first.
pub fn elapsed_between(earlier: i128, later: i128) -> (r: Result<u128, crate::error::FlashError>)
    ensures
        later < earlier ==> r == Err::<u128, crate::error::FlashError>(crate::error::FlashError::Clock),
        earlier <= later ==> (r matches Ok(d) && d as int == span(earlier, later)),
{
    if later < earlier {
        Err(crate::error::FlashError::Clock)
    } else {
        if earlier >= 0 || later < 0 {
            Ok((later - earlier) as u128)
        } else {
            Ok(later as u128 + (-(earlier + 1)) as u128 + 1)
        }
    }
}

} // verus!
