//! The clocks of the system.

use vstd::prelude::*;

verus! {

/// A reading of the monotonic clock.
#[verifier::external_type_specification]
#[verifier::external_body]
pub struct ExInstant(std::time::Instant);

/// The error of a wall clock that stands before the epoch.
#[verifier::external_type_specification]
#[verifier::external_body]
pub struct ExSystemTimeError(std::time::SystemTimeError);

/// `Instant::now` reads the monotonic clock. Nothing is said of what it shows.
pub assume_specification[ std::time::Instant::now ]() -> std::time::Instant
;

/// `Instant::elapsed` gives the time since the reading. It depends on the clock, so nothing is said
/// of it.
pub assume_specification[ std::time::Instant::elapsed ](
    i: &std::time::Instant,
) -> core::time::Duration
;

/// The whole seconds of a duration, as `Duration::as_secs` gives them.
pub uninterp spec fn whole_seconds(d: core::time::Duration) -> u64;

/// `Duration::as_secs` gives the whole seconds of a duration. It goes by the duration alone.
pub assume_specification[ core::time::Duration::as_secs ](d: &core::time::Duration) -> (r: u64)
    ensures
        r == whole_seconds(*d),
;

/// Whether a reading of the monotonic clock may show `i`.
pub open spec fn shows(i: std::time::Instant) -> bool {
    call_ensures(std::time::Instant::now, (), i)
}

/// Whether `secs` whole seconds may have passed since the reading `i`, as the clock has it.
pub open spec fn passed(i: std::time::Instant, secs: int) -> bool {
    exists|d: core::time::Duration| #[trigger]
        call_ensures(std::time::Instant::elapsed, (&i,), d) && secs == whole_seconds(d)
}

/// A reading that is taken anew where `anew`, and kept where not.
pub open spec fn taken_anew(
    anew: bool,
    before: std::time::Instant,
    after: std::time::Instant,
) -> bool {
    if anew {
        shows(after)
    } else {
        after == before
    }
}

/// Whole seconds since the reading.
pub(crate) fn seconds_since(i: &std::time::Instant) -> (r: u64)
    ensures
        passed(*i, r as int),
{
    let d = i.elapsed();
    assert(call_ensures(std::time::Instant::elapsed, (i,), d));
    d.as_secs()
}

/// `SystemTime::elapsed`, asked of the epoch, gives the time since 1970-01-01 00:00:00 UTC, or an
/// error where the clock stands before it. It depends on the clock, so nothing is said of it.
#[verifier::external_body]
fn since_epoch() -> (r: Result<core::time::Duration, std::time::SystemTimeError>) {
    std::time::SystemTime::UNIX_EPOCH.elapsed()
}

/// Whether the wall clock may show `secs` whole seconds since 1970-01-01 00:00:00 UTC; it shows 0
/// where it stands before that.
pub closed spec fn wall_shows(secs: int) -> bool {
    exists|r: Result<core::time::Duration, std::time::SystemTimeError>| #[trigger]
        call_ensures(since_epoch, (), r) && secs == (match r {
            Ok(d) => whole_seconds(d) as int,
            Err(_) => 0,
        })
}

/// The seconds since 1970-01-01 00:00:00 UTC as the wall clock has them; 0 where it stands before
/// that.
pub(crate) fn epoch_seconds() -> (r: u64)
    ensures
        wall_shows(r as int),
{
    let reading = since_epoch();
    assert(call_ensures(since_epoch, (), reading));
    match reading {
        Ok(d) => d.as_secs(),
        Err(_) => 0,
    }
}

} // verus!
