//! Calendar dates and UTC instants as plain integers, with the conversions
//! between them that `chrono` performs.

use chrono::Datelike;
use vstd::prelude::*;

verus! {

/// Seconds in a civil day.
pub const SECONDS_PER_DAY: i64 = 86_400;

/// The first day a [`CalendarDate`] can hold: 1 January of the year -262143.
pub const MIN_EPOCH_DAY: i32 = -96_465_292;

/// The last day a [`CalendarDate`] can hold: 31 December of the year 262142.
pub const MAX_EPOCH_DAY: i32 = 95_026_236;

/// The Gregorian year in which the day with this number falls, days being
/// counted from 1 January 1970 as day 0.
pub uninterp spec fn calendar_year(epoch_day: int) -> int;

/// A day of the proleptic Gregorian calendar without a time zone, held as the
/// number of days since 1 January 1970.
#[derive(Clone, Copy, Debug, PartialEq, Eq, Structural)]
pub struct CalendarDate {
    epoch_day: i32,
}

/// A point on the UTC time line: whole seconds since 1 January 1970 0:00:00
/// and the nanoseconds after that second.
#[derive(Clone, Copy, Debug, PartialEq, Eq, Structural)]
pub struct UtcInstant {
    seconds: i64,
    nanos: u32,
}

impl CalendarDate {
    #[verifier::type_invariant]
    closed spec fn representable(self) -> bool {
        MIN_EPOCH_DAY <= self.epoch_day <= MAX_EPOCH_DAY
    }

    /// Days since 1 January 1970.
    pub closed spec fn day(self) -> int {
        self.epoch_day as int
    }

    /// The date that lies `day` days after 1 January 1970.
    pub closed spec fn on_day(day: int) -> CalendarDate {
        CalendarDate { epoch_day: day as i32 }
    }

    /// Whether a date with this day number exists.
    pub open spec fn in_range(day: int) -> bool {
        MIN_EPOCH_DAY <= day <= MAX_EPOCH_DAY
    }

    /// `on_day` and `day` are inverse to each other.
    pub proof fn lemma_on_day(day: int)
        requires
            i32::MIN <= day <= i32::MAX,
        ensures
            Self::on_day(day).day() == day,
    {
    }

    /// A date is determined by its day number.
    pub proof fn lemma_day_determines(a: CalendarDate, b: CalendarDate)
        requires
            a.day() == b.day(),
        ensures
            a == b,
    {
    }

    /// The date `days` days after 1 January 1970, if the calendar reaches it.
    pub fn from_epoch_days(days: i32) -> (date: Option<CalendarDate>)
        ensures
            date is Some <==> Self::in_range(days as int),
            date is Some ==> date->0 == Self::on_day(days as int),
    {
        if MIN_EPOCH_DAY <= days && days <= MAX_EPOCH_DAY {
            Some(CalendarDate { epoch_day: days })
        } else {
            None
        }
    }

    /// Days since 1 January 1970.
    pub fn to_epoch_days(&self) -> (days: i32)
        ensures
            days == self.day(),
            Self::in_range(days as int),
    {
        proof {
            use_type_invariant(self);
        }
        self.epoch_day
    }
}

impl CalendarDate {
    /// Midnight UTC at the start of this day: the one rule by which a date
    /// without a time zone becomes an instant.
    pub open spec fn spec_and_midnight_utc(self) -> UtcInstant {
        UtcInstant::at(self.day() * SECONDS_PER_DAY, 0)
    }

    /// Midnight UTC at the start of this day.
    pub fn and_midnight_utc(&self) -> (instant: UtcInstant)
        ensures
            instant == self.spec_and_midnight_utc(),
            instant.seconds() == self.day() * SECONDS_PER_DAY,
            instant.nanos() == 0,
            instant.spec_date_naive() == *self,
    {
        proof {
            use_type_invariant(self);
            lemma_midnight_keeps_the_date(*self);
        }
        // The default time of day: 0:00:00.
        let seconds = timestamp_at(self.epoch_day, 0, 0, 0);
        UtcInstant { seconds, nanos: 0 }
    }

    /// The Gregorian year of this date.
    pub fn year(&self) -> (year: i32)
        ensures
            year == calendar_year(self.day()),
    {
        proof {
            use_type_invariant(self);
        }
        year_of_epoch_day(self.epoch_day)
    }
}

impl UtcInstant {
    #[verifier::type_invariant]
    closed spec fn representable(self) -> bool {
        Self::in_range(self.seconds as int, self.nanos as int)
    }

    /// Whole seconds since 1 January 1970 0:00:00 UTC.
    pub closed spec fn seconds(self) -> int {
        self.seconds as int
    }

    /// Nanoseconds after the whole second.
    pub closed spec fn nanos(self) -> int {
        self.nanos as int
    }

    /// The instant `nanos` nanoseconds after second `seconds`.
    pub closed spec fn at(seconds: int, nanos: int) -> UtcInstant {
        UtcInstant { seconds: seconds as i64, nanos: nanos as u32 }
    }

    /// Whether an instant with these parts exists: its day is one that a
    /// [`CalendarDate`] can hold, and the nanoseconds stay under one second,
    /// or under two in the last second of a minute, where a leap second is
    /// written that way.
    pub open spec fn in_range(seconds: int, nanos: int) -> bool {
        &&& CalendarDate::in_range(seconds / (SECONDS_PER_DAY as int))
        &&& 0 <= nanos < 2_000_000_000
        &&& (nanos >= 1_000_000_000 ==> seconds % 60 == 59)
    }

    /// `at` is inverse to `seconds` and `nanos`.
    pub proof fn lemma_at(seconds: int, nanos: int)
        requires
            i64::MIN <= seconds <= i64::MAX,
            0 <= nanos <= u32::MAX,
        ensures
            Self::at(seconds, nanos).seconds() == seconds,
            Self::at(seconds, nanos).nanos() == nanos,
    {
    }

    /// An instant is determined by its seconds and nanoseconds.
    pub proof fn lemma_parts_determine(a: UtcInstant, b: UtcInstant)
        requires
            a.seconds() == b.seconds(),
            a.nanos() == b.nanos(),
        ensures
            a == b,
    {
    }

    /// The instant with these parts, if there is one.
    pub fn from_timestamp(seconds: i64, nanos: u32) -> (instant: Option<UtcInstant>)
        ensures
            instant is Some <==> Self::in_range(seconds as int, nanos as int),
            instant is Some ==> instant->0 == Self::at(seconds as int, nanos as int),
    {
        let day = floor_div(seconds, SECONDS_PER_DAY);
        let second_of_minute = floor_mod(seconds, 60);
        if (MIN_EPOCH_DAY as i64) <= day && day <= (MAX_EPOCH_DAY as i64) && nanos < 2_000_000_000
            && (nanos < 1_000_000_000 || second_of_minute == 59) {
            Some(UtcInstant { seconds, nanos })
        } else {
            None
        }
    }

    /// Whole seconds since 1 January 1970 0:00:00 UTC.
    pub fn timestamp(&self) -> (seconds: i64)
        ensures
            seconds == self.seconds(),
    {
        self.seconds
    }

    /// Nanoseconds after the whole second.
    pub fn timestamp_subsec_nanos(&self) -> (nanos: u32)
        ensures
            nanos == self.nanos(),
    {
        self.nanos
    }

    /// The UTC day on which this instant falls.
    pub open spec fn spec_date_naive(self) -> CalendarDate {
        CalendarDate::on_day(self.seconds() / (SECONDS_PER_DAY as int))
    }

    /// The UTC day on which this instant falls.
    pub fn date_naive(&self) -> (date: CalendarDate)
        ensures
            date == self.spec_date_naive(),
            date.day() == self.seconds() / (SECONDS_PER_DAY as int),
    {
        proof {
            use_type_invariant(self);
        }
        let day = epoch_day_of_timestamp(self.seconds, self.nanos);
        CalendarDate { epoch_day: day }
    }

    /// The Gregorian year of the UTC day on which this instant falls.
    pub open spec fn spec_year(self) -> int {
        calendar_year(self.seconds() / (SECONDS_PER_DAY as int))
    }

    /// The Gregorian year of the UTC day on which this instant falls.
    pub fn year(&self) -> (year: i32)
        ensures
            year == self.spec_year(),
    {
        self.date_naive().year()
    }

    /// Whether this instant comes after `other` on the time line.
    pub open spec fn is_after(self, other: UtcInstant) -> bool {
        self.seconds() > other.seconds() || (self.seconds() == other.seconds() && self.nanos()
            > other.nanos())
    }

    /// Whether this instant comes after `other` on the time line.
    pub fn later_than(&self, other: &UtcInstant) -> (later: bool)
        ensures
            later == self.is_after(*other),
    {
        self.seconds > other.seconds || (self.seconds == other.seconds && self.nanos > other.nanos)
    }
}

/// `a` divided by `b`, rounded down.
fn floor_div(a: i64, b: i64) -> (q: i64)
    requires
        b > 0,
    ensures
        q == (a as int) / (b as int),
{
    if a >= 0 {
        a / b
    } else {
        let below: i64 = -(a + 1);
        let q: i64 = -(below / b) - 1;
        assert(q == (a as int) / (b as int)) by (nonlinear_arith)
            requires
                b > 0,
                a < 0,
                below == -(a + 1),
                q == -(below / b) - 1,
        ;
        q
    }
}

/// What is left of `a` after `floor_div` by `b`.
fn floor_mod(a: i64, b: i64) -> (r: i64)
    requires
        b > 0,
    ensures
        r == (a as int) % (b as int),
{
    if a >= 0 {
        a % b
    } else {
        let below: i64 = -(a + 1);
        let r: i64 = b - 1 - below % b;
        assert(r == (a as int) % (b as int)) by (nonlinear_arith)
            requires
                b > 0,
                a < 0,
                below == -(a + 1),
                r == b - 1 - below % b,
        ;
        r
    }
}

/// Promotes a date without a time zone to the instant at which that day
/// begins in UTC.
pub fn convert_naive_to_utc(date: CalendarDate) -> (instant: UtcInstant)
    ensures
        instant == date.spec_and_midnight_utc(),
        instant.seconds() == date.day() * SECONDS_PER_DAY,
        instant.nanos() == 0,
        instant.spec_date_naive() == date,
{
    date.and_midnight_utc()
}

/// A date promoted to an instant and split back into its date is the date
/// it was: midnight UTC belongs to the day it opens.
pub proof fn lemma_midnight_keeps_the_date(date: CalendarDate)
    requires
        CalendarDate::in_range(date.day()),
    ensures
        date.spec_and_midnight_utc().spec_date_naive() == date,
{
    let seconds = date.day() * SECONDS_PER_DAY;
    UtcInstant::lemma_at(seconds, 0);
    assert(seconds / (SECONDS_PER_DAY as int) == date.day());
    CalendarDate::lemma_on_day(date.day());
    CalendarDate::lemma_day_determines(date.spec_and_midnight_utc().spec_date_naive(), date);
}

/// `chrono`: `NaiveDate::from_epoch_days`, `NaiveDate::and_hms_opt`,
/// `NaiveDateTime::and_utc` and `DateTime::timestamp`. The timestamp of a
/// time of day on a day, taken as UTC, is the day's number, counted from
/// 1 January 1970, times 86 400, plus the seconds since midnight:
/// `timestamp` counts non-leap seconds. Days outside the calendar and times
/// that no day has are left out.
#[verifier::external_body]
fn timestamp_at(epoch_day: i32, hour: u32, minute: u32, second: u32) -> (seconds: i64)
    requires
        MIN_EPOCH_DAY <= epoch_day <= MAX_EPOCH_DAY,
        hour < 24,
        minute < 60,
        second < 60,
    ensures
        seconds == epoch_day * SECONDS_PER_DAY + hour * 3600 + minute * 60 + second,
{
    let date = chrono::NaiveDate::from_epoch_days(epoch_day).unwrap();
    date.and_hms_opt(hour, minute, second).unwrap().and_utc().timestamp()
}

/// `chrono`: `DateTime::from_timestamp`, `date_naive` and
/// `NaiveDate::to_epoch_days`. An instant falls on the day whose number is
/// its timestamp divided by 86 400, rounded down. Instants that `chrono`
/// cannot hold are left out.
#[verifier::external_body]
fn epoch_day_of_timestamp(seconds: i64, nanos: u32) -> (epoch_day: i32)
    requires
        UtcInstant::in_range(seconds as int, nanos as int),
    ensures
        epoch_day == (seconds as int) / (SECONDS_PER_DAY as int),
{
    let instant = chrono::DateTime::from_timestamp(seconds, nanos).unwrap();
    instant.date_naive().to_epoch_days()
}

/// `chrono`: `NaiveDate::from_epoch_days` and `Datelike::year`. The result
/// is the year of the day in the proleptic Gregorian calendar; the contract
/// gives that function of the day a name and says no more. Days outside the
/// calendar are left out.
#[verifier::external_body]
fn year_of_epoch_day(epoch_day: i32) -> (year: i32)
    requires
        MIN_EPOCH_DAY <= epoch_day <= MAX_EPOCH_DAY,
    ensures
        year == calendar_year(epoch_day as int),
{
    chrono::NaiveDate::from_epoch_days(epoch_day).unwrap().year()
}

} // verus!
