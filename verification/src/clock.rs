//! The system clock.

use vstd::prelude::*;

verus! {

/// `SystemTime::now`, as whole seconds since the Unix epoch. Trusted, with
/// nothing promised of the result: it is whatever the clock says. A clock
/// that stands before the epoch reads as zero.
#[verifier::external_body]
pub(crate) fn now_sec() -> u64 {
    std::time::SystemTime::now().duration_since(std::time::UNIX_EPOCH).map_or(0, |d| d.as_secs())
}

/// `SystemTime::now`, as milliseconds since the Unix epoch, cut to 64 bits.
/// Trusted, with nothing promised of the result. A clock that stands before
/// the epoch reads as zero.
#[verifier::external_body]
pub fn now_msec() -> u64 {
    std::time::SystemTime::now().duration_since(std::time::UNIX_EPOCH).map_or(
        0,
        |d| d.as_millis() as u64,
    )
}

} // verus!
