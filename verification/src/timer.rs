//! A timer that is set for a number of milliseconds and can be asked whether
//! that time has passed, and how much of it is left.

use vstd::prelude::*;

verus! {

/// `std::time::Instant`, a reading of the monotonic clock. Opaque here.
#[verifier::external_type_specification]
#[verifier::external_body]
pub struct ExInstant(std::time::Instant);

/// `Instant::now` reads the clock. Nothing is known of what it returns.
pub assume_specification[ std::time::Instant::now ]() -> std::time::Instant
;

/// `Instant::elapsed` is the time that has passed since the instant.
/// Nothing is known of what it returns.
pub assume_specification[ std::time::Instant::elapsed ](instant: &std::time::Instant) -> core::time::Duration
;

/// The nanoseconds that the longest `Duration` holds. The standard library
/// documents `Duration::MAX` as the maximum duration and as equal to
/// `Duration::new(u64::MAX, 999_999_999)`.
pub const LONGEST_NANOS: u128 = 18_446_744_073_709_551_615_999_999_999;

/// `Duration::as_nanos` is the total number of nanoseconds that a duration
/// holds. A duration is opaque here, so all that is said of the number is
/// that it is no more than the longest duration holds.
pub assume_specification[ core::time::Duration::as_nanos ](duration: &core::time::Duration) -> (nanos: u128)
    ensures
        nanos <= LONGEST_NANOS,
;

/// The nanoseconds in a millisecond.
pub const NANOS_PER_MILLI: u128 = 1_000_000;

/// Whether a span of `span` nanoseconds is over once `waited` nanoseconds
/// have passed.
pub open spec fn is_over(span: u128, waited: u128) -> bool {
    waited >= span
}

/// The whole milliseconds left of a span of `span` nanoseconds once `waited`
/// nanoseconds have passed: none when the span is over.
pub open spec fn left_of(span: u128, waited: u128) -> u128 {
    if waited >= span {
        0
    } else {
        ((span - waited) / NANOS_PER_MILLI as int) as u128
    }
}

/// Whether a span of `span` nanoseconds is over after `waited` nanoseconds.
pub fn has_elapsed(span: u128, waited: u128) -> (r: bool)
    ensures
        r == is_over(span, waited),
{
    waited >= span
}

/// The whole milliseconds left of a span of `span` nanoseconds after
/// `waited` nanoseconds.
pub fn remaining_after(span: u128, waited: u128) -> (r: u128)
    ensures
        r == left_of(span, waited),
{
    if waited >= span {
        0
    } else {
        (span - waited) / NANOS_PER_MILLI
    }
}

/// A timer: the instant at which it was set, and the span it was set for.
#[derive(Debug, Clone, Copy)]
pub struct Timer {
    start: std::time::Instant,
    span: u128,
}

impl Timer {
    /// The span that the timer was set for, in nanoseconds.
    pub closed spec fn span(&self) -> u128 {
        self.span
    }

    /// A timer that is set now, for `duration_milli` milliseconds.
    pub fn new(duration_milli: u64) -> (timer: Timer)
        ensures
            timer.span() == duration_milli * NANOS_PER_MILLI,
    {
        Timer { start: std::time::Instant::now(), span: duration_milli as u128 * NANOS_PER_MILLI }
    }

    /// The nanoseconds that have passed since the timer was set, as the
    /// clock has it. What the clock says is not known here; whatever it
    /// says, the number is one that a `Duration` can hold.
    pub fn waited(&self) -> (r: u128)
        ensures
            r <= LONGEST_NANOS,
    {
        let passed = self.start.elapsed();
        passed.as_nanos()
    }

    /// Whether the span has passed. What the clock says is not known here;
    /// whatever it says, a timer set for no time at all has elapsed.
    pub fn elapsed(&self) -> (r: bool)
        ensures
            self.span() == 0 ==> r,
    {
        has_elapsed(self.span, self.waited())
    }

    /// The whole milliseconds that are left of the span. What the clock says
    /// is not known here; whatever it says, no more is left than the timer
    /// was set for.
    pub fn remaining(&self) -> (r: u128)
        ensures
            r * NANOS_PER_MILLI <= self.span(),
    {
        remaining_after(self.span, self.waited())
    }
}

} // verus!
