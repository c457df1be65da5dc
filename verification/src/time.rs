//! Monotonic time, read from `std::time` as whole nanoseconds since the
//! playground's clock was started.

use vstd::prelude::*;

verus! {

/// `std::time::Instant`, carried through the library as an opaque value.
#[verifier::external_type_specification]
#[verifier::external_body]
pub struct ExInstant(std::time::Instant);

/// Calls `std::time::Instant::now`. The result depends on the clock, so
/// nothing is stated of it.
#[verifier::external_body]
pub(crate) fn instant_now() -> (now: std::time::Instant) {
    std::time::Instant::now()
}

/// Calls `std::time::Instant::elapsed`: the time that has passed since
/// `since` (zero, not a panic, should the clock read earlier). The result
/// depends on the clock, so nothing is stated of it.
#[verifier::external_body]
pub(crate) fn instant_elapsed(since: &std::time::Instant) -> (elapsed: core::time::Duration) {
    since.elapsed()
}

/// Calls `core::time::Duration::as_nanos`: the whole nanoseconds in `d`.
/// The durations of this crate come from the clock, so nothing is stated of
/// the result.
#[verifier::external_body]
pub(crate) fn duration_as_nanos(d: &core::time::Duration) -> (ns: u128) {
    d.as_nanos()
}

/// The time from the reading `from` to the reading `to`, in nanoseconds;
/// zero when `to` is the earlier one, as `Instant::duration_since` gives.
pub open spec fn elapsed_ns(from: u128, to: u128) -> u128 {
    if to >= from { (to - from) as u128 } else { 0 }
}

/// The time from the reading `from` to the reading `to`, in nanoseconds.
pub fn elapsed_between(from: u128, to: u128) -> (d: u128)
    ensures
        d == elapsed_ns(from, to),
{
    if to >= from { to - from } else { 0 }
}

/// The playground's clock: readings are nanoseconds since it was started.
#[derive(Clone, Copy)]
pub struct Clock {
    base: std::time::Instant,
}

impl Clock {
    /// Starts a clock now.
    pub fn start() -> (c: Clock) {
        Clock { base: instant_now() }
    }

    /// Reads the clock: the nanoseconds since it was started. Only the clock
    /// knows them, so nothing is stated of the reading.
    pub fn now_ns(&self) -> (ns: u128) {
        let d = instant_elapsed(&self.base);
        duration_as_nanos(&d)
    }
}

/// Time measured from a fixed reading never goes backwards: a later reading
/// is at least as far from it.
pub proof fn lemma_elapsed_monotonic(from: u128, t1: u128, t2: u128)
    requires
        t1 <= t2,
    ensures
        elapsed_ns(from, t1) <= elapsed_ns(from, t2),
{
}

/// The time between two readings is the later minus the earlier, to the
/// nanosecond, and nothing when the second reading is the earlier one.
pub proof fn lemma_elapsed_exact(from: u128, to: u128)
    ensures
        to >= from ==> from + elapsed_ns(from, to) == to,
        to < from ==> elapsed_ns(from, to) == 0,
{
}

} // verus!
