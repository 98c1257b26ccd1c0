//! Clock readings as plain numbers.
use std::time::SystemTime;
use vstd::prelude::*;

verus! {

/// `std::time::SystemTime`, carried through as an opaque value.
#[verifier::external_type_specification]
#[verifier::external_body]
pub struct ExSystemTime(SystemTime);

/// What `SystemTime::duration_since(UNIX_EPOCH)` gives for a clock reading:
/// the whole seconds and the nanoseconds within the second that lie between
/// the Unix epoch and the reading, or `None` for a reading before the epoch.
pub uninterp spec fn epoch_offset(time: SystemTime) -> Option<(u64, u32)>;

/// Whether a clock reading lies at or after the Unix epoch.
pub open spec fn datable(time: SystemTime) -> bool {
    epoch_offset(time) is Some
}

/// The whole seconds between the Unix epoch and a reading at or after it.
pub open spec fn seconds_of(time: SystemTime) -> u64 {
    epoch_offset(time).unwrap().0
}

/// Nanoseconds in one second: the exclusive bound of `nano_seconds`.
pub const NANOS_PER_SECOND: u32 = 1_000_000_000;

/// The text of the one error `get_time` can give.
pub open spec fn clock_error() -> Seq<char> {
    "Error getting system time."@
}

/// A point in time as the wire format carries it.
pub struct CreatedAt {
    pub seconds_since_unix: u64,
    pub nano_seconds: u32,
}

/// Calls `SystemTime::now`. The reading depends on the machine's clock, so
/// nothing is claimed of it.
#[verifier::external_body]
pub(crate) fn system_now() -> SystemTime {
    SystemTime::now()
}

/// Calls `SystemTime::duration_since` with `UNIX_EPOCH` and hands the
/// `Duration` back as its two parts (`as_secs`, `subsec_nanos`); the error
/// that std gives for a reading before the epoch becomes `None`. The
/// nanosecond part of a `Duration` is below one second, as std documents.
#[verifier::external_body]
fn since_epoch(time: &SystemTime) -> (offset: Option<(u64, u32)>)
    ensures
        offset == epoch_offset(*time),
        offset matches Some(parts) ==> parts.1 < NANOS_PER_SECOND,
{
    match time.duration_since(SystemTime::UNIX_EPOCH) {
        Ok(elapsed) => Some((elapsed.as_secs(), elapsed.subsec_nanos())),
        Err(_) => None,
    }
}

/// The seconds between the epoch and `time`, or `None` if `time` lies before
/// the epoch.
pub fn checked_instant_to_seconds(time: SystemTime) -> (secs: Option<u64>)
    ensures
        match epoch_offset(time) {
            Some(parts) => secs == Some(parts.0),
            None => secs is None,
        },
{
    match since_epoch(&time) {
        Some(parts) => Some(parts.0),
        None => None,
    }
}

/// The seconds between the epoch and `time`, for a time at or after the epoch.
pub fn instant_to_seconds(time: SystemTime) -> (secs: u64)
    requires
        epoch_offset(time) is Some,
    ensures
        secs == epoch_offset(time).unwrap().0,
{
    match since_epoch(&time) {
        Some(parts) => parts.0,
        None => 0,
    }
}

/// The wire timestamp of a clock reading; a reading before the epoch is the
/// one error.
pub fn created_at(time: SystemTime) -> (stamp: Result<CreatedAt, &'static str>)
    ensures
        match epoch_offset(time) {
            Some(parts) => stamp == Ok::<CreatedAt, &'static str>(
                CreatedAt { seconds_since_unix: parts.0, nano_seconds: parts.1 },
            ) && parts.1 < NANOS_PER_SECOND,
            None => stamp matches Err(text) && text@ == clock_error(),
        },
{
    match since_epoch(&time) {
        Some(parts) => Ok(CreatedAt { seconds_since_unix: parts.0, nano_seconds: parts.1 }),
        None => Err("Error getting system time."),
    }
}

/// The wire timestamp of the present moment. Which moment that is cannot be
/// known here; what holds of every outcome is stated.
pub fn get_time() -> (stamp: Result<CreatedAt, &'static str>)
    ensures
        exists|now: SystemTime| #[trigger] is_stamp_of(stamp, now),
        stamp matches Ok(at) ==> at.nano_seconds < NANOS_PER_SECOND,
        stamp matches Err(text) ==> text@ == clock_error(),
{
    let now = system_now();
    let stamp = created_at(now);
    assert(is_stamp_of(stamp, now));
    stamp
}

/// Whether `stamp` is the wire timestamp of the clock reading `time`: the
/// seconds and nanoseconds that separate the reading from the epoch, or
/// the one error for a reading before the epoch.
pub open spec fn is_stamp_of(stamp: Result<CreatedAt, &'static str>, time: SystemTime) -> bool {
    match epoch_offset(time) {
        Some(parts) => stamp == Ok::<CreatedAt, &'static str>(
            CreatedAt { seconds_since_unix: parts.0, nano_seconds: parts.1 },
        ),
        None => stamp matches Err(text) && text@ == clock_error(),
    }
}

} // verus!
