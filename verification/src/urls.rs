//! Registered URLs with their request budget and required access level.
use vstd::prelude::*;

verus! {

/// A URL known to the service (one row of the `urls` table).
#[derive(Debug, Clone)]
pub struct Url {
    pub url_path: String,
    pub limit_per: i32,
    pub limit_count: i32,
    pub access_level: i32,
}

/// A URL row as inserted into the `urls` table.
#[derive(Debug, Clone)]
pub struct NewUrl {
    pub url_path: String,
    pub limit_per: i32,
    pub limit_count: i32,
    pub access_level: i32,
}

/// A URL as exchanged with clients.
pub struct UrlData {
    pub url_path: String,
    pub limit_per: i32,
    pub limit_count: i32,
    pub access_level: i32,
}

/// The length of the window over which a URL's request budget is counted.
#[derive(Copy, Clone, Debug, PartialEq, Eq)]
pub enum UrlLimit {
    Second,
    Minute,
    Hour,
    Day,
    Month,
    Year,
}

/// The length in seconds of each [`UrlLimit`] window.
#[derive(Copy, Clone, Debug, PartialEq, Eq)]
pub enum UrlLimitInSec {
    Second,
    Minute,
    Hour,
    Day,
    Month,
    Year,
}

/// The smallest code of a window length.
pub const MIN_LIMIT_CODE: i32 = 0;

/// The largest code of a window length.
pub const MAX_LIMIT_CODE: i32 = 5;

/// Request to register a URL, or to replace the budget and access level of
/// one already registered under the same path.
#[derive(Debug, Clone)]
pub struct CreateOrUpdateUrl {
    pub url_path: String,
    pub access_level: i32,
    pub limit_per: i32,
    pub limit_count: i32,
}

/// Request to delete the URL registered under `url_path`.
#[derive(Debug, Clone)]
pub struct DeleteUrl {
    pub url_path: String,
}

/// Request for the URL registered under `url_path`.
#[derive(Debug, Clone)]
pub struct GetUrl {
    pub url_path: String,
}

impl CreateOrUpdateUrl {
    /// The row that the request inserts, or that replaces the row with the
    /// same path: the path, budget and access level of the request.
    pub fn to_new_url(&self) -> (row: NewUrl)
        ensures
            row.url_path@ == self.url_path@,
            row.access_level == self.access_level,
            row.limit_per == self.limit_per,
            row.limit_count == self.limit_count,
    {
        NewUrl {
            url_path: self.url_path.clone(),
            access_level: self.access_level,
            limit_per: self.limit_per,
            limit_count: self.limit_count,
        }
    }
}

/// Whether `value` is the code of some [`UrlLimit`].
pub open spec fn is_limit_code(value: int) -> bool {
    MIN_LIMIT_CODE <= value <= MAX_LIMIT_CODE
}

impl UrlLimit {
    /// The code under which this window is stored (`limit_per`).
    pub open spec fn code(self) -> int {
        match self {
            UrlLimit::Second => 0,
            UrlLimit::Minute => 1,
            UrlLimit::Hour => 2,
            UrlLimit::Day => 3,
            UrlLimit::Month => 4,
            UrlLimit::Year => 5,
        }
    }

    /// The window whose code is `value`.
    pub open spec fn spec_from_code(value: int) -> UrlLimit {
        if value == 0 {
            UrlLimit::Second
        } else if value == 1 {
            UrlLimit::Minute
        } else if value == 2 {
            UrlLimit::Hour
        } else if value == 3 {
            UrlLimit::Day
        } else if value == 4 {
            UrlLimit::Month
        } else {
            UrlLimit::Year
        }
    }

    /// Decodes a stored window code. Codes outside `0..=5` are not windows;
    /// callers must not pass them.
    pub fn from_i32(value: i32) -> (limit: UrlLimit)
        requires
            is_limit_code(value as int),
        ensures
            limit.code() == value,
            limit == UrlLimit::spec_from_code(value as int),
    {
        match value {
            0 => UrlLimit::Second,
            1 => UrlLimit::Minute,
            2 => UrlLimit::Hour,
            3 => UrlLimit::Day,
            4 => UrlLimit::Month,
            _ => UrlLimit::Year,
        }
    }

    /// The length in seconds of this window, as a [`UrlLimitInSec`].
    pub open spec fn spec_in_seconds(self) -> UrlLimitInSec {
        match self {
            UrlLimit::Second => UrlLimitInSec::Second,
            UrlLimit::Minute => UrlLimitInSec::Minute,
            UrlLimit::Hour => UrlLimitInSec::Hour,
            UrlLimit::Day => UrlLimitInSec::Day,
            UrlLimit::Month => UrlLimitInSec::Month,
            UrlLimit::Year => UrlLimitInSec::Year,
        }
    }

    /// The length in seconds of this window, as a [`UrlLimitInSec`].
    #[verifier::when_used_as_spec(spec_in_seconds)]
    pub fn in_seconds(self) -> (window: UrlLimitInSec)
        ensures
            window == self.spec_in_seconds(),
    {
        match self {
            UrlLimit::Second => UrlLimitInSec::Second,
            UrlLimit::Minute => UrlLimitInSec::Minute,
            UrlLimit::Hour => UrlLimitInSec::Hour,
            UrlLimit::Day => UrlLimitInSec::Day,
            UrlLimit::Month => UrlLimitInSec::Month,
            UrlLimit::Year => UrlLimitInSec::Year,
        }
    }
}

impl UrlLimitInSec {
    /// Number of seconds in the window.
    pub open spec fn spec_seconds(self) -> i64 {
        match self {
            UrlLimitInSec::Second => 1,
            UrlLimitInSec::Minute => 60,
            UrlLimitInSec::Hour => 3600,
            UrlLimitInSec::Day => 75600,
            UrlLimitInSec::Month => 2268000,
            UrlLimitInSec::Year => 27216000,
        }
    }

    /// Number of seconds in the window.
    #[verifier::when_used_as_spec(spec_seconds)]
    pub fn seconds(self) -> (secs: i64)
        ensures
            secs == self.spec_seconds(),
    {
        match self {
            UrlLimitInSec::Second => 1,
            UrlLimitInSec::Minute => 60,
            UrlLimitInSec::Hour => 3600,
            UrlLimitInSec::Day => 75600,
            UrlLimitInSec::Month => 2268000,
            UrlLimitInSec::Year => 27216000,
        }
    }
}

/// The length in seconds of the window whose code is `limit_per`.
pub open spec fn window_seconds(limit_per: int) -> int {
    UrlLimit::spec_from_code(limit_per).spec_in_seconds().spec_seconds() as int
}

/// Decoding a code and encoding the window again gives the code back, and
/// every window is decoded from its own code.
pub proof fn lemma_limit_code_round_trip(value: int, limit: UrlLimit)
    requires
        is_limit_code(value),
    ensures
        UrlLimit::spec_from_code(value).code() == value,
        UrlLimit::spec_from_code(limit.code()) == limit,
        is_limit_code(limit.code()),
{
}

/// Longer windows have more seconds: the window length grows strictly with
/// the window code.
pub proof fn lemma_window_strictly_increasing(a: int, b: int)
    requires
        is_limit_code(a),
        is_limit_code(b),
        a < b,
    ensures
        0 < window_seconds(a) < window_seconds(b),
{
}

/// The window lengths: one second, one minute, one hour, 21 hours (the
/// service's "day"), 630 hours (its "month") and 7560 hours (its "year"),
/// for codes 0 to 5 in turn, both as stored in [`UrlLimitInSec`] and as
/// reached from a decoded code.
pub proof fn lemma_window_lengths()
    ensures
        window_seconds(0) == 1,
        window_seconds(1) == 60,
        window_seconds(2) == 60 * 60,
        window_seconds(3) == 21 * 60 * 60,
        window_seconds(4) == 630 * 60 * 60,
        window_seconds(5) == 7560 * 60 * 60,
        UrlLimit::Second.spec_in_seconds().spec_seconds() == 1,
        UrlLimit::Minute.spec_in_seconds().spec_seconds() == 60,
        UrlLimit::Hour.spec_in_seconds().spec_seconds() == 3600,
        UrlLimit::Day.spec_in_seconds().spec_seconds() == 75600,
        UrlLimit::Month.spec_in_seconds().spec_seconds() == 2268000,
        UrlLimit::Year.spec_in_seconds().spec_seconds() == 27216000,
{
}

} // verus!
