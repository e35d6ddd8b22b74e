//! The monotonic clock, read through the `instant` crate.
//!
//! What the clock says depends on when it is asked, so nothing here promises
//! anything about a reading. The engine turns readings into plain
//! nanosecond counts and hands those to functions that are verified for
//! every count.

use vstd::prelude::*;
use instant::Instant;
use std::time::Duration;

verus! {

/// A reading of the monotonic clock, `instant::Instant`. It is carried
/// around and handed back to the clock; nothing is known of what it holds.
#[verifier::external_type_specification]
#[verifier::external_body]
pub struct ExInstant(instant::Instant);

/// Reads the clock with `instant::Instant::now`. Nothing is claimed of the
/// reading.
#[verifier::external_body]
pub(crate) fn now() -> Instant {
    Instant::now()
}

/// The time from `earlier` to `later`, by
/// `Instant::saturating_duration_since`, which answers zero rather than
/// panic when `earlier` is the later of the two. Nothing is claimed of the
/// span.
#[verifier::external_body]
pub(crate) fn span_between(later: &Instant, earlier: &Instant) -> Duration {
    later.saturating_duration_since(*earlier)
}

/// The whole nanoseconds in a span, by `Duration::as_nanos`. Nothing is
/// claimed of the count.
#[verifier::external_body]
pub(crate) fn span_nanos(span: &Duration) -> u128 {
    span.as_nanos()
}

/// The nanoseconds from `earlier` to `later` by the clock, as [`nanos_kept`].
pub(crate) fn nanos_between(later: &Instant, earlier: &Instant) -> u64 {
    let span = span_between(later, earlier);
    let count = span_nanos(&span);
    nanos_kept(count)
}

/// A count of nanoseconds as the engine keeps it: the count itself where a
/// `u64` holds it, and `u64::MAX` where it is longer than that.
pub fn nanos_kept(count: u128) -> (nanos: u64)
    ensures
        count <= u64::MAX ==> nanos == count,
        count > u64::MAX ==> nanos == u64::MAX,
{
    if count > u64::MAX as u128 {
        u64::MAX
    } else {
        count as u64
    }
}

} // verus!
