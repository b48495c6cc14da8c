//! A UTC timestamp value: whole seconds since the Unix epoch and nanoseconds,
//! with ordering, arithmetic and text renderings.

use chrono::{NaiveDate, NaiveTime, Timelike, Utc};
use core::cmp::Ordering;
use prost_types::Timestamp;
use vstd::prelude::*;
use vstd::std_specs::cmp::PartialOrdSpec;

verus! {

// region: outside items
/// Declares `prost_types::Timestamp`, whose two public fields are read and
/// written directly.
#[verifier::external_type_specification]
pub struct ExTimestamp(Timestamp);

/// RFC 3339 rendering of a UTC instant, where it lies in the calendar range.
pub uninterp spec fn utc_rfc3339(seconds: i64, nanos: u32) -> Option<Seq<char>>;

/// `YYYY-MM-DD` rendering of the UTC date of an instant, where it lies in the
/// calendar range.
pub uninterp spec fn utc_date(seconds: i64, nanos: u32) -> Option<Seq<char>>;

/// Text of a raw timestamp.
pub uninterp spec fn timestamp_display(seconds: i64, nanos: i32) -> Seq<char>;

/// First year of the calendar range.
pub const MIN_YEAR: i32 = -262143;

/// Last year of the calendar range.
pub const MAX_YEAR: i32 = 262142;

/// `y` is a leap year of the proleptic Gregorian calendar.
pub open spec fn is_leap_year(y: int) -> bool {
    (y % 4 == 0 && y % 100 != 0) || y % 400 == 0
}

/// Number of days of month `m` of year `y`.
pub open spec fn days_in_month(y: int, m: int) -> int {
    if m == 2 {
        if is_leap_year(y) {
            29
        } else {
            28
        }
    } else if m == 4 || m == 6 || m == 9 || m == 11 {
        30
    } else {
        31
    }
}

/// The calendar date exists and lies in the calendar range.
pub open spec fn date_exists(y: int, m: int, d: int) -> bool {
    &&& MIN_YEAR <= y <= MAX_YEAR
    &&& 1 <= m <= 12
    &&& 1 <= d <= days_in_month(y, m)
}

/// Days from 1970-01-01 to the given date of the proleptic Gregorian
/// calendar (negative before it). Years are counted from March, so that the
/// leap day ends a year, in eras of 400 years.
pub open spec fn days_from_civil(y: int, m: int, d: int) -> int {
    let y2 = if m <= 2 {
        y - 1
    } else {
        y
    };
    let era = y2 / 400;
    let year_of_era = y2 - era * 400;
    let month_from_march = if m > 2 {
        m - 3
    } else {
        m + 9
    };
    let day_of_year = (153 * month_from_march + 2) / 5 + d - 1;
    let day_of_era = year_of_era * 365 + year_of_era / 4 - year_of_era / 100 + day_of_year;
    era * 146097 + day_of_era - 719468
}

/// Seconds of midnight UTC of a calendar date, where the date exists.
pub open spec fn ymd_midnight(year: i32, month: u32, day: u32) -> Option<int> {
    if date_exists(year as int, month as int, day as int) {
        Some(days_from_civil(year as int, month as int, day as int) * 86400)
    } else {
        None
    }
}

/// Seconds and nanoseconds name an instant of the calendar range: its day
/// lies within the range, and the nanoseconds stay below 10^9, or below
/// 2 * 10^9 in the last second of a minute (a leap second).
pub open spec fn utc_instant_ok(seconds: int, nanos: int) -> bool {
    &&& days_from_civil(MIN_YEAR as int, 1, 1) <= seconds / 86400
    &&& seconds / 86400 <= days_from_civil(MAX_YEAR as int, 12, 31)
    &&& 0 <= nanos < 2_000_000_000
    &&& (nanos < 1_000_000_000 || seconds % 60 == 59)
}

/// The value of an optional `i64`, as an integer.
pub open spec fn opt_int(o: Option<i64>) -> Option<int> {
    match o {
        Some(v) => Some(v as int),
        None => None,
    }
}

/// Relies on `chrono::Utc::now`, read through `DateTime::timestamp` and
/// `Timelike::nanosecond`: the current time as seconds and nanoseconds. It is
/// built from the system time since the epoch (it panics on a clock set
/// before it), so the seconds are not negative and the nanoseconds stay
/// below 10^9.
#[verifier::external_body]
fn utc_now_parts() -> (r: (i64, u32))
    ensures
        r.0 >= 0,
        r.1 < 1_000_000_000,
{
    let now = Utc::now();
    (now.timestamp(), now.nanosecond())
}

/// Relies on `chrono::NaiveDate::from_ymd_opt`, taken at midnight and read
/// through `and_utc().timestamp()`. It returns `None` for a month outside
/// 1..=12, a day the month does not have, and a year outside
/// `MIN_YEAR..=MAX_YEAR`; otherwise the seconds since the epoch of that
/// midnight in the proleptic Gregorian calendar.
#[verifier::external_body]
fn midnight_seconds(year: i32, month: u32, day: u32) -> (r: Option<i64>)
    ensures
        opt_int(r) == ymd_midnight(year, month, day),
{
    match NaiveDate::from_ymd_opt(year, month, day) {
        Some(date) => Some(date.and_time(NaiveTime::default()).and_utc().timestamp()),
        None => None,
    }
}

/// Relies on `chrono::DateTime::<Utc>::from_timestamp` and `to_rfc3339`. The
/// first returns `None` exactly when the day of `seconds` falls outside the
/// calendar range or the nanoseconds are invalid (2 * 10^9 or more, or 10^9
/// or more outside the last second of a minute).
#[verifier::external_body]
fn rfc3339_text(seconds: i64, nanos: u32) -> (r: Option<String>)
    ensures
        r is Some <==> utc_instant_ok(seconds as int, nanos as int),
        match r {
            Some(s) => utc_rfc3339(seconds, nanos) == Some(s@),
            None => utc_rfc3339(seconds, nanos) is None,
        },
{
    match chrono::DateTime::<Utc>::from_timestamp(seconds, nanos) {
        Some(t) => Some(t.to_rfc3339()),
        None => None,
    }
}

/// Relies on `chrono::DateTime::<Utc>::from_timestamp` and the `Display` of
/// `date_naive()`, which renders `YYYY-MM-DD`. The first returns `None`
/// exactly when the day of `seconds` falls outside the calendar range or the
/// nanoseconds are invalid (2 * 10^9 or more, or 10^9 or more outside the
/// last second of a minute).
#[verifier::external_body]
fn date_text(seconds: i64, nanos: u32) -> (r: Option<String>)
    ensures
        r is Some <==> utc_instant_ok(seconds as int, nanos as int),
        match r {
            Some(s) => utc_date(seconds, nanos) == Some(s@),
            None => utc_date(seconds, nanos) is None,
        },
{
    match chrono::DateTime::<Utc>::from_timestamp(seconds, nanos) {
        Some(t) => Some(t.date_naive().to_string()),
        None => None,
    }
}

/// Relies on the `Display` of `prost_types::Timestamp`.
#[verifier::external_body]
fn raw_timestamp_text(seconds: i64, nanos: i32) -> (r: String)
    ensures
        r@ == timestamp_display(seconds, nanos),
{
    Timestamp { seconds, nanos }.to_string()
}
// endregion

/// Failures of timestamp conversions.
#[derive(PartialEq, Eq, Structural, Clone, Copy, Debug)]
pub enum Error {
    /// The timestamp lies outside the calendar range that can be rendered.
    TimestampConversionError,
}

pub type Result<T> = core::result::Result<T, Error>;

/// A UTC instant: whole seconds since 1970-01-01T00:00:00Z and nanoseconds.
/// Instants are ordered by seconds, then by nanoseconds.
#[derive(PartialEq, Eq, Structural, Ord, Clone, Copy, Debug)]
pub struct DateTime {
    pub seconds: i64,
    pub nanos: i32,
}

/// `a` comes strictly before `b`.
pub open spec fn precedes(a: DateTime, b: DateTime) -> bool {
    a.seconds < b.seconds || (a.seconds == b.seconds && a.nanos < b.nanos)
}

/// How `a` compares with `b`.
pub open spec fn compare(a: DateTime, b: DateTime) -> Ordering {
    if precedes(a, b) {
        Ordering::Less
    } else if a == b {
        Ordering::Equal
    } else {
        Ordering::Greater
    }
}

/// `v` fits in an `i64`.
pub open spec fn fits_i64(v: int) -> bool {
    i64::MIN <= v <= i64::MAX
}

impl PartialOrd for DateTime {
    fn partial_cmp(&self, other: &DateTime) -> (r: Option<Ordering>) {
        if self.seconds == other.seconds {
            if self.nanos < other.nanos {
                Some(Ordering::Less)
            } else if self.nanos == other.nanos {
                Some(Ordering::Equal)
            } else {
                Some(Ordering::Greater)
            }
        } else if self.seconds < other.seconds {
            Some(Ordering::Less)
        } else {
            Some(Ordering::Greater)
        }
    }
}

impl vstd::std_specs::cmp::PartialOrdSpecImpl for DateTime {
    open spec fn obeys_partial_cmp_spec() -> bool {
        true
    }

    open spec fn partial_cmp_spec(&self, other: &DateTime) -> Option<Ordering> {
        Some(compare(*self, *other))
    }
}

impl Default for DateTime {
    fn default() -> (r: DateTime)
        ensures
            r.seconds == 0 && r.nanos == 0,
    {
        DateTime { seconds: 0, nanos: 0 }
    }
}

// Constructors
impl DateTime {
    /// The current UTC time.
    pub fn now() -> (r: DateTime)
        ensures
            r.seconds >= 0,
            0 <= r.nanos < 1_000_000_000,
    {
        let (seconds, nanos) = utc_now_parts();
        DateTime { seconds, nanos: nanos as i32 }
    }

    /// Midnight UTC of the given calendar date; `None` where the date does
    /// not exist or lies outside the calendar range.
    pub fn from_ymd(year: i32, month: u32, day: u32) -> (r: Option<DateTime>)
        ensures
            r is Some <==> date_exists(year as int, month as int, day as int),
            r matches Some(d) ==> d.nanos == 0 && Some(d.seconds as int) == ymd_midnight(
                year,
                month,
                day,
            ),
    {
        match midnight_seconds(year, month, day) {
            Some(seconds) => Some(DateTime { seconds, nanos: 0 }),
            None => None,
        }
    }

    /// The instant a protobuf timestamp holds.
    pub fn from_timestamp(timestamp: Timestamp) -> (r: DateTime)
        ensures
            r.seconds == timestamp.seconds,
            r.nanos == timestamp.nanos,
    {
        DateTime { seconds: timestamp.seconds, nanos: timestamp.nanos }
    }
}

impl DateTime {
    /// This instant as a protobuf timestamp.
    pub fn timestamp(&self) -> (r: Timestamp)
        ensures
            r.seconds == self.seconds,
            r.nanos == self.nanos,
    {
        Timestamp { seconds: self.seconds, nanos: self.nanos }
    }

    /// This instant moved by `delta` seconds.
    fn shifted(&self, delta: i128) -> (r: DateTime)
        requires
            fits_i64(self.seconds + delta),
        ensures
            r.seconds == self.seconds + delta,
            r.nanos == self.nanos,
    {
        DateTime { seconds: (self.seconds as i128 + delta) as i64, nanos: self.nanos }
    }

    /// Adds hours, minutes and seconds.
    pub fn add_hms(&self, hours: i64, minutes: i64, seconds: i64) -> (r: DateTime)
        requires
            fits_i64(self.seconds + hours * 3600 + minutes * 60 + seconds),
        ensures
            r.seconds == self.seconds + hours * 3600 + minutes * 60 + seconds,
            r.nanos == self.nanos,
    {
        let delta: i128 = hours as i128 * 3600 + minutes as i128 * 60 + seconds as i128;
        self.shifted(delta)
    }

    /// Adds midnight UTC of the given calendar date, read as seconds since
    /// the epoch; a date that does not exist adds nothing.
    pub fn add_ymd(&self, year: i32, month: u32, day: u32) -> (r: DateTime)
        requires
            ymd_midnight(year, month, day) matches Some(s) ==> fits_i64(self.seconds + s),
        ensures
            r.nanos == self.nanos,
            r.seconds == match ymd_midnight(year, month, day) {
                Some(s) => self.seconds + s,
                None => self.seconds as int,
            },
    {
        match midnight_seconds(year, month, day) {
            Some(s) => DateTime { seconds: self.seconds + s, nanos: self.nanos },
            None => *self,
        }
    }

    /// Adds minutes.
    pub fn add_minutes(&self, minutes: i64) -> (r: DateTime)
        requires
            fits_i64(self.seconds + minutes * 60),
        ensures
            r.seconds == self.seconds + minutes * 60,
            r.nanos == self.nanos,
    {
        self.shifted(minutes as i128 * 60)
    }

    /// Adds seconds.
    pub fn add_seconds(&self, seconds: i64) -> (r: DateTime)
        requires
            fits_i64(self.seconds + seconds),
        ensures
            r.seconds == self.seconds + seconds,
            r.nanos == self.nanos,
    {
        self.shifted(seconds as i128)
    }

    /// Adds hours.
    pub fn add_hours(&self, hours: i64) -> (r: DateTime)
        requires
            fits_i64(self.seconds + hours * 3600),
        ensures
            r.seconds == self.seconds + hours * 3600,
            r.nanos == self.nanos,
    {
        self.shifted(hours as i128 * 3600)
    }

    /// Adds days.
    pub fn add_days(&self, days: i64) -> (r: DateTime)
        requires
            fits_i64(self.seconds + days * 86400),
        ensures
            r.seconds == self.seconds + days * 86400,
            r.nanos == self.nanos,
    {
        self.shifted(days as i128 * 86400)
    }
}

// Text renderings
impl DateTime {
    /// RFC 3339 rendering in UTC; fails exactly when the instant lies outside
    /// the calendar range or its nanoseconds are invalid.
    pub fn to_utc_string(&self) -> (r: Result<String>)
        ensures
            r is Ok <==> utc_instant_ok(self.seconds as int, self.nanos as int),
            r matches Ok(t) ==> utc_rfc3339(self.seconds, self.nanos as u32) == Some(t@),
            r is Err ==> r == Err::<String, Error>(Error::TimestampConversionError),
    {
        if self.nanos < 0 {
            return Err(Error::TimestampConversionError);
        }
        match rfc3339_text(self.seconds, self.nanos as u32) {
            Some(s) => Ok(s),
            None => Err(Error::TimestampConversionError),
        }
    }

    /// `YYYY-MM-DD` rendering of the UTC date; fails exactly when the instant
    /// lies outside the calendar range or its nanoseconds are invalid.
    pub fn to_utc_date_string(&self) -> (r: Result<String>)
        ensures
            r is Ok <==> utc_instant_ok(self.seconds as int, self.nanos as int),
            r matches Ok(t) ==> utc_date(self.seconds, self.nanos as u32) == Some(t@),
            r is Err ==> r == Err::<String, Error>(Error::TimestampConversionError),
    {
        if self.nanos < 0 {
            return Err(Error::TimestampConversionError);
        }
        match date_text(self.seconds, self.nanos as u32) {
            Some(s) => Ok(s),
            None => Err(Error::TimestampConversionError),
        }
    }

    /// Text of this instant: its RFC 3339 rendering, or the raw timestamp
    /// where it lies outside the calendar range.
    pub fn to_display_string(&self) -> (r: String)
        ensures
            utc_instant_ok(self.seconds as int, self.nanos as int) ==> Some(r@) == utc_rfc3339(
                self.seconds,
                self.nanos as u32,
            ),
            !utc_instant_ok(self.seconds as int, self.nanos as int) ==> r@ == timestamp_display(
                self.seconds,
                self.nanos,
            ),
    {
        match self.to_utc_string() {
            Ok(s) => s,
            Err(_) => raw_timestamp_text(self.seconds, self.nanos),
        }
    }
}

// region: laws
/// Ordering of instants is a strict total order, the lexicographic order of
/// `(seconds, nanos)`, and `partial_cmp` agrees with it.
pub proof fn lemma_order_strict_total(a: DateTime, b: DateTime, c: DateTime)
    ensures
        !precedes(a, a),
        precedes(a, b) ==> !precedes(b, a),
        precedes(a, b) && precedes(b, c) ==> precedes(a, c),
        precedes(a, b) || a == b || precedes(b, a),
        precedes(a, b) <==> (a.seconds, a.nanos).partial_cmp_spec(&(b.seconds, b.nanos)) == Some(
            Ordering::Less,
        ),
        a.partial_cmp_spec(&b) == Some(compare(a, b)),
{
}
// endregion

} // verus!
