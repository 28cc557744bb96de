//! Durations that bound calls, and how the library reads them.

use core::time::Duration;
use vstd::prelude::*;

verus! {

/// Whole seconds of the default timeout per attempt.
pub const DEFAULT_TIMEOUT_SECS: u64 = 5;

/// Whole seconds of the default upper bound for a whole call.
pub const DEFAULT_TOTAL_TIMEOUT_SECS: u64 = 10;

/// The whole nanoseconds that a `Duration` spans, as `Duration::as_nanos` reports them.
pub uninterp spec fn duration_nanos(d: Duration) -> nat;

/// Calls `Duration::as_nanos`: the total number of whole nanoseconds the duration spans.
#[verifier::external_body]
pub fn nanos(d: Duration) -> (n: u128)
    ensures
        n == duration_nanos(d),
{
    d.as_nanos()
}

/// Calls `Duration::from_secs`, whose documentation says the result spans `secs` whole seconds.
#[verifier::external_body]
pub fn duration_from_secs(secs: u64) -> (d: Duration)
    ensures
        duration_nanos(d) == secs * 1_000_000_000,
{
    Duration::from_secs(secs)
}

/// Default timeout per attempt, 5 s.
pub fn default_timeout() -> (d: Duration)
    ensures
        duration_nanos(d) == DEFAULT_TIMEOUT_SECS * 1_000_000_000,
{
    duration_from_secs(DEFAULT_TIMEOUT_SECS)
}

/// Default upper bound for a whole call, 10 s.
pub fn default_total_timeout() -> (d: Duration)
    ensures
        duration_nanos(d) == DEFAULT_TOTAL_TIMEOUT_SECS * 1_000_000_000,
{
    duration_from_secs(DEFAULT_TOTAL_TIMEOUT_SECS)
}

} // verus!
