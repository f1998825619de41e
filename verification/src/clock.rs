//! The monotonic clock of std, as far as the interface needs it.

use std::time::{Duration, Instant};
use vstd::prelude::*;

verus! {

/// A moment on std's monotonic clock. Nothing inside it is visible here.
#[verifier::external_type_specification]
#[verifier::external_body]
pub struct ExInstant(std::time::Instant);

/// `Instant::now` of std returns the present moment. Nothing is claimed of
/// it: two calls need not agree.
pub assume_specification[ Instant::now ]() -> (now: Instant)
;

/// `Instant::saturating_duration_since` of std returns the time from
/// `earlier` to `later`, or no time where `earlier` is the later of the two.
/// Nothing is claimed of the length.
pub assume_specification[ Instant::saturating_duration_since ](
    later: &Instant,
    earlier: Instant,
) -> (elapsed: Duration)
;

/// `Duration::as_secs` of std returns the whole seconds that a duration
/// holds. Nothing is claimed of the number.
pub assume_specification[ Duration::as_secs ](duration: &Duration) -> (secs: u64)
;

/// Whole seconds from `earlier` to `later`, 0 where `earlier` is not before.
pub(crate) fn seconds_between(later: Instant, earlier: Instant) -> (secs: u64) {
    later.saturating_duration_since(earlier).as_secs()
}

} // verus!
