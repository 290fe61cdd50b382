use tokio::time::Instant;
use vstd::prelude::*;

verus! {

#[verifier::external_type_specification]
#[verifier::external_body]
pub struct ExInstant(tokio::time::Instant);

/// The largest number of nanoseconds a `Duration` can hold: `u64::MAX` seconds
/// and 999_999_999 nanoseconds.
pub open spec fn max_duration_nanos() -> int {
    18446744073709551615int * 1_000_000_000 + 999_999_999
}

/// The current instant of the monotonic clock, from `tokio::time::Instant::now`.
///
/// Trusted: nothing is claimed of the instant; it comes from the machine's clock.
#[verifier::external_body]
pub(crate) fn instant_now() -> Instant {
    Instant::now()
}

/// Nanoseconds elapsed since `since`, from `tokio::time::Instant::elapsed`
/// (which saturates at zero) read with `Duration::as_nanos`.
///
/// Trusted: the number depends on the clock; all that is claimed is that it is
/// at most what a `Duration` can hold.
#[verifier::external_body]
pub(crate) fn elapsed_nanos(since: &Instant) -> (nanos: u128)
    ensures
        nanos <= max_duration_nanos(),
{
    since.elapsed().as_nanos()
}

} // verus!
