//! The monotonic clock that storages read their time from: nanoseconds elapsed since an
//! origin taken when the storage was made.

use vstd::prelude::*;

verus! {

/// `std::time::Instant`, carried through opaque.
#[verifier::external_type_specification]
#[verifier::external_body]
pub struct ExInstant(std::time::Instant);

/// Calls `std::time::Instant::now`. Nothing is promised of the instant returned.
#[verifier::external_body]
pub(crate) fn instant_now() -> std::time::Instant {
    std::time::Instant::now()
}

/// Calls `std::time::Instant::elapsed` on `origin`. The duration depends on when the call
/// is made, so nothing is promised of it.
#[verifier::external_body]
fn elapsed_since(origin: &std::time::Instant) -> std::time::Duration {
    origin.elapsed()
}

/// Calls `std::time::Duration::as_nanos`. A `Duration` is opaque here, so nothing is
/// stated of the count.
#[verifier::external_body]
fn duration_nanos(d: &std::time::Duration) -> u128 {
    d.as_nanos()
}

/// The nanoseconds elapsed since `origin`, at most `u64::MAX`. The count is read from the
/// clock at the time of the call, so no value of it is promised.
pub(crate) fn nanos_since(origin: &std::time::Instant) -> u64 {
    saturating_nanos(duration_nanos(&elapsed_since(origin)))
}

/// A count of nanoseconds as a `u64`: itself when it fits, `u64::MAX` otherwise.
pub(crate) fn saturating_nanos(n: u128) -> (r: u64)
    ensures
        r == (if n > u64::MAX { u64::MAX as int } else { n as int }),
{
    if n > u64::MAX as u128 {
        u64::MAX
    } else {
        n as u64
    }
}

} // verus!
