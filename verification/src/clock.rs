use std::time::{Duration, SystemTime, SystemTimeError, UNIX_EPOCH};
use vstd::prelude::*;

verus! {

#[verifier::external_type_specification]
#[verifier::external_body]
pub struct ExSystemTime(SystemTime);

#[verifier::external_type_specification]
#[verifier::external_body]
pub struct ExSystemTimeError(SystemTimeError);

/// `std::time::SystemTime::now`: the current wall-clock time. It depends on
/// the clock, so nothing is stated of it.
#[verifier::external_body]
fn system_time_now() -> (t: SystemTime) {
    SystemTime::now()
}

/// `SystemTime::duration_since(UNIX_EPOCH)`: the time elapsed since the Unix
/// epoch, or an error when `t` lies before it. `SystemTime` is opaque here,
/// so nothing is stated of which of the two comes back.
#[verifier::external_body]
fn since_unix_epoch(t: &SystemTime) -> (r: Result<Duration, SystemTimeError>) {
    t.duration_since(UNIX_EPOCH)
}

/// The whole milliseconds contained in a `Duration` (rounded down), as
/// `Duration::as_millis` computes them.
pub uninterp spec fn duration_millis(d: Duration) -> u128;

/// `Duration::as_millis`: the whole milliseconds in `d`. It depends on `d`
/// alone, so its result is named by [`duration_millis`].
#[verifier::external_body]
fn whole_millis(d: &Duration) -> (r: u128)
    ensures
        r == duration_millis(*d),
{
    d.as_millis()
}

/// The timestamp recorded for a clock reading: the milliseconds since the
/// epoch, truncated to 64 bits, or 0 when the clock stands before the epoch.
pub fn millis_to_timestamp(elapsed: Option<u128>) -> (r: u64)
    ensures
        r == match elapsed {
            Some(ms) => ms % 0x1_0000_0000_0000_0000,
            None => 0,
        },
{
    match elapsed {
        Some(ms) => {
            let t = ms as u64;
            assert(t == ms % 0x1_0000_0000_0000_0000) by (bit_vector)
                requires
                    t == ms as u64,
            ;
            t
        },
        None => 0,
    }
}

/// The timestamp of a clock reading, given as the time elapsed since the Unix
/// epoch: its whole milliseconds truncated to 64 bits, or 0 when the clock
/// stands before the epoch.
pub open spec fn clock_timestamp(since: Result<Duration, SystemTimeError>) -> u64 {
    match since {
        Ok(d) => (duration_millis(d) % 0x1_0000_0000_0000_0000) as u64,
        Err(_) => 0,
    }
}

/// The timestamp recorded for the time elapsed since the Unix epoch: its
/// whole milliseconds truncated to 64 bits, or 0 when the clock stands before
/// the epoch.
pub fn timestamp_of(since: Result<Duration, SystemTimeError>) -> (r: u64)
    ensures
        since is Err ==> r == 0,
        since matches Ok(d) ==> r == duration_millis(d) % 0x1_0000_0000_0000_0000,
        r == clock_timestamp(since),
{
    let elapsed = match since {
        Ok(d) => Some(whole_millis(&d)),
        Err(_) => None,
    };
    millis_to_timestamp(elapsed)
}

/// Milliseconds since the Unix epoch on the system clock (0 when the clock
/// stands before the epoch). Which reading the clock gives is not stated; the
/// result is the timestamp of some reading.
pub fn now_ms() -> (r: u64)
    ensures
        exists|since: Result<Duration, SystemTimeError>| r == #[trigger] clock_timestamp(since),
{
    let now = system_time_now();
    let since = since_unix_epoch(&now);
    let r = timestamp_of(since);
    assert(r == clock_timestamp(since));
    r
}

} // verus!
