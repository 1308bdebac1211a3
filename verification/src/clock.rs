//! Points in time, as the service stores and compares them.
//!
//! A [`Timestamp`] is a UTC date and time held as whole seconds since the
//! Unix epoch plus a sub-second nanosecond part. Reading the clock and
//! measuring the time between two instants are done by `chrono`.
use vstd::prelude::*;

verus! {

/// Seconds since the Unix epoch of the earliest instant `chrono` represents
/// (January 1st of year -262143, 00:00:00 UTC).
pub const MIN_TIMESTAMP: i64 = -8334601228800i64;

/// Seconds since the Unix epoch of the last whole second `chrono` represents
/// (December 31st of year 262142, 23:59:59 UTC).
pub const MAX_TIMESTAMP: i64 = 8210266876799i64;

/// Nanoseconds in one second.
pub const NANOS_PER_SEC: u32 = 1_000_000_000u32;

/// A UTC instant: `secs` whole seconds after the Unix epoch and `nanos`
/// nanoseconds into that second.
#[derive(Copy, Clone, Debug, PartialEq, Eq)]
pub struct Timestamp {
    pub secs: i64,
    pub nanos: u32,
}

impl Timestamp {
    /// The instant is one that `chrono` represents and is not a leap second.
    pub open spec fn wf(self) -> bool {
        &&& MIN_TIMESTAMP <= self.secs <= MAX_TIMESTAMP
        &&& self.nanos < NANOS_PER_SEC
    }

    /// Nanoseconds since the Unix epoch.
    pub open spec fn total_nanos(self) -> int {
        self.secs * (NANOS_PER_SEC as int) + self.nanos
    }

    /// The instant `secs` seconds and `nanos` nanoseconds after the epoch,
    /// or `None` when that is not a well-formed instant.
    pub fn new(secs: i64, nanos: u32) -> (t: Option<Timestamp>)
        ensures
            t is Some <==> (Timestamp { secs, nanos }).wf(),
            t matches Some(t) ==> t.secs == secs && t.nanos == nanos,
    {
        if MIN_TIMESTAMP <= secs && secs <= MAX_TIMESTAMP && nanos < NANOS_PER_SEC {
            Some(Timestamp { secs, nanos })
        } else {
            None
        }
    }

    /// The instant at the start of second `secs` after the epoch, or `None`
    /// when that second is out of range.
    pub fn from_secs(secs: i64) -> (t: Option<Timestamp>)
        ensures
            t is Some <==> MIN_TIMESTAMP <= secs <= MAX_TIMESTAMP,
            t matches Some(t) ==> t.secs == secs && t.nanos == 0 && t.wf(),
    {
        Timestamp::new(secs, 0)
    }
}

/// The number of whole seconds from `earlier` to `later`, rounded toward
/// zero (negative when `later` lies before `earlier`).
pub open spec fn whole_seconds_between(later: Timestamp, earlier: Timestamp) -> int {
    let d: int = later.total_nanos() - earlier.total_nanos();
    if d >= 0 {
        d / (NANOS_PER_SEC as int)
    } else {
        -((-d) / (NANOS_PER_SEC as int))
    }
}

/// Reads the system clock.
///
/// Calls `chrono::Utc::now()`. The contract claims only what holds of every
/// instant it returns: `chrono` takes the time elapsed since the epoch from
/// `SystemTime` (whose whole seconds fit in an `i64`), builds the instant
/// with `DateTime::from_timestamp` and a sub-second part below one second,
/// and panics rather than return an instant out of range; so the instant is
/// well formed and not before the epoch. Which instant comes back is not
/// stated; `chrono` also panics when the system clock is set before the
/// epoch.
#[verifier::external_body]
pub fn now() -> (t: Timestamp)
    ensures
        t.wf(),
        t.secs >= 0,
{
    let now = chrono::Utc::now();
    Timestamp { secs: now.timestamp(), nanos: now.timestamp_subsec_nanos() }
}

/// Whole seconds elapsed from `earlier` to `later`.
///
/// Calls `chrono::NaiveDateTime::signed_duration_since` on the two instants,
/// then `TimeDelta::num_seconds`. The contract claims that the result is the
/// exact difference of the two instants truncated toward zero to whole
/// seconds, which is what `chrono` computes for instants that are not leap
/// seconds.
#[verifier::external_body]
pub fn seconds_between(later: Timestamp, earlier: Timestamp) -> (secs: i64)
    requires
        later.wf(),
        earlier.wf(),
    ensures
        secs == whole_seconds_between(later, earlier),
{
    let later = chrono::DateTime::from_timestamp(later.secs, later.nanos).expect("in range");
    let earlier = chrono::DateTime::from_timestamp(earlier.secs, earlier.nanos).expect("in range");
    later.naive_utc().signed_duration_since(earlier.naive_utc()).num_seconds()
}

/// The instant `hours` hours after `t`, or `None` when it is out of range.
///
/// Calls `chrono::DateTime::<Utc>::checked_add_signed` with
/// `chrono::TimeDelta::hours(hours)`. The contract claims that the sub-second
/// part is kept, the whole seconds move by `3600 * hours`, and `None` comes
/// back exactly when the result lies outside the range `chrono` represents.
/// `TimeDelta::hours` accepts far more than the million hours allowed here.
#[verifier::external_body]
pub fn checked_add_hours(t: Timestamp, hours: i64) -> (r: Option<Timestamp>)
    requires
        t.wf(),
        -1_000_000 <= hours <= 1_000_000,
    ensures
        r is Some <==> MIN_TIMESTAMP <= t.secs + 3600 * hours <= MAX_TIMESTAMP,
        r matches Some(u) ==> u.secs == t.secs + 3600 * hours && u.nanos == t.nanos && u.wf(),
{
    let t = chrono::DateTime::from_timestamp(t.secs, t.nanos).expect("in range");
    match t.checked_add_signed(chrono::TimeDelta::hours(hours)) {
        Some(u) => Some(Timestamp { secs: u.timestamp(), nanos: u.timestamp_subsec_nanos() }),
        None => None,
    }
}

} // verus!
