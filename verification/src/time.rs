//! What the library knows of `std::time::Duration`.
//!
//! A `Duration` is opaque to the verifier. Contracts speak of it through
//! [`duration_nanos`], its length in whole nanoseconds.

use std::time::Duration;
use vstd::prelude::*;

verus! {

/// The length of `d` in nanoseconds: what `Duration::as_nanos` returns.
pub uninterp spec fn duration_nanos(d: Duration) -> nat;

/// The longest `Duration`: `u64::MAX` seconds and 999,999,999 nanoseconds.
pub open spec fn max_duration_nanos() -> nat {
    18_446_744_073_709_551_615 * 1_000_000_000 + 999_999_999
}

/// The length of an optional duration, where there is one.
pub open spec fn opt_nanos(d: Option<Duration>) -> Option<nat> {
    match d {
        Some(t) => Some(duration_nanos(t)),
        None => None,
    }
}

/// `Duration::as_nanos` gives the whole length in nanoseconds, which never
/// exceeds that of `Duration::MAX`.
pub assume_specification[ Duration::as_nanos ](d: &Duration) -> (n: u128)
    ensures
        n == duration_nanos(*d),
        n <= max_duration_nanos(),
;

/// `Duration::checked_add` gives the sum of the two lengths, or `None` where
/// that sum is longer than `Duration::MAX`.
pub assume_specification[ Duration::checked_add ](a: Duration, b: Duration) -> (r: Option<
    Duration,
>)
    ensures
        match r {
            Some(t) => duration_nanos(t) == duration_nanos(a) + duration_nanos(b),
            None => duration_nanos(a) + duration_nanos(b) > max_duration_nanos(),
        },
;

} // verus!
