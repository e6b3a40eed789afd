//! Durations and clocks.

use std::time::{Duration, Instant, SystemTime, UNIX_EPOCH};
use vstd::prelude::*;

verus! {

#[verifier::external_type_specification]
#[verifier::external_body]
pub struct ExInstant(std::time::Instant);

#[verifier::external_type_specification]
#[verifier::external_body]
pub struct ExSystemTime(std::time::SystemTime);

/// How many nanoseconds a duration lasts.
pub uninterp spec fn nanos(d: std::time::Duration) -> u128;

/// What the monotonic clock showed at an instant, in nanoseconds since some
/// moment that is the same for all instants.
pub uninterp spec fn ticks(i: std::time::Instant) -> int;

/// `Duration::from_secs` makes a duration of whole seconds.
pub assume_specification[ std::time::Duration::from_secs ](secs: u64) -> (r: std::time::Duration)
    ensures
        nanos(r) == secs * 1_000_000_000,
;

/// `Duration::as_nanos` counts the nanoseconds.
pub assume_specification[ std::time::Duration::as_nanos ](d: &std::time::Duration) -> (r: u128)
    ensures
        r == nanos(*d),
;

/// How a duration of some nanoseconds is written for debugging.
pub uninterp spec fn debug_text(nanos: u128) -> Seq<char>;

/// The `Debug` text of a duration, which rests on its length alone.
#[verifier::external_body]
pub(crate) fn duration_text(d: Duration) -> (r: String)
    ensures
        r@ == debug_text(nanos(d)),
{
    format!("{d:?}")
}

/// `Instant::now` reads the monotonic clock. What it shows is left unsaid.
#[verifier::external_body]
pub(crate) fn instant_now() -> (r: Instant) {
    Instant::now()
}

/// Whether an instant is one that a reading of the monotonic clock gave.
pub closed spec fn is_clock_reading(i: Instant) -> bool {
    call_ensures(instant_now, (), i)
}

/// The readings of the monotonic clock are just what `instant_now` gives.
pub(crate) proof fn lemma_is_clock_reading(i: Instant)
    ensures
        is_clock_reading(i) <==> call_ensures(instant_now, (), i),
{
}

/// `Instant::saturating_duration_since` tells how much time lies between two
/// instants: none where the second is not after the first.
#[verifier::external_body]
pub(crate) fn time_between(earlier: Instant, later: Instant) -> (r: Duration)
    ensures
        nanos(r) == if ticks(later) >= ticks(earlier) {
            ticks(later) - ticks(earlier)
        } else {
            0
        },
{
    later.saturating_duration_since(earlier)
}

/// `SystemTime::now` reads the system's clock.
#[verifier::external_body]
pub(crate) fn system_time_now() -> (r: SystemTime) {
    SystemTime::now()
}

/// Whether a time since the epoch, or none, is what a reading of the system's
/// clock gave.
pub closed spec fn is_epoch_reading(since: Option<Duration>) -> bool {
    exists|t: SystemTime| #[trigger]
        call_ensures(system_time_now, (), t) && call_ensures(since_epoch, (&t,), since)
}

/// The readings of the system's clock are just what `since_epoch` makes of what
/// `system_time_now` gives.
pub(crate) proof fn lemma_is_epoch_reading(since: Option<Duration>)
    ensures
        is_epoch_reading(since) <==> exists|t: SystemTime| #[trigger]
            call_ensures(system_time_now, (), t) && call_ensures(since_epoch, (&t,), since),
{
}

/// The time since the epoch that the system's clock shows, or `None` where that
/// is before the epoch.
pub(crate) fn epoch_now() -> (r: Option<Duration>)
    ensures
        is_epoch_reading(r),
{
    let now = system_time_now();
    let since = since_epoch(&now);
    assert(call_ensures(system_time_now, (), now) && call_ensures(since_epoch, (&now,), since));
    since
}

/// `SystemTime::duration_since` the Unix epoch, or `None` for an earlier time.
#[verifier::external_body]
pub(crate) fn since_epoch(time: &SystemTime) -> (r: Option<Duration>) {
    match time.duration_since(UNIX_EPOCH) {
        Ok(d) => Some(d),
        Err(_) => None,
    }
}

} // verus!
