//! Dates and moments as plain numbers, and the windows of days that the
//! totals are taken over.
//!
//! Reading a date or a moment out of a text, writing a moment, and turning a
//! local time into a moment are left to `chrono`. What comes back is held in
//! the types of this module, and everything else is computed on those.

use chrono::{DateTime, Datelike, Local, NaiveDate, TimeZone};
use vstd::prelude::*;

verus! {

/// A day of the proleptic Gregorian calendar, held as the numbers that the
/// windows are computed from.
///
/// `day_number` counts days with January 1 of year 1 as day 1; dates are
/// ordered and told apart by it alone. `ordinal` is the day of the year from
/// 1, `weekday` the day of the week with Monday as 0.
#[derive(Clone, Copy, Debug, PartialEq, Eq, Structural)]
pub struct CalendarDate {
    pub day_number: i32,
    pub year: i32,
    pub month: u32,
    pub day: u32,
    pub ordinal: u32,
    pub weekday: u32,
}

impl CalendarDate {
    /// The fields are in the ranges of a calendar date.
    pub open spec fn wf(self) -> bool {
        &&& 1 <= self.month <= 12
        &&& 1 <= self.day <= 31
        &&& self.day <= self.ordinal <= 366
        &&& self.weekday <= 6
    }

    /// Whether the fields are in the ranges of a calendar date.
    pub fn is_wf(&self) -> (ok: bool)
        ensures
            ok == self.wf(),
    {
        1 <= self.month && self.month <= 12 && 1 <= self.day && self.day <= 31 && self.day
            <= self.ordinal && self.ordinal <= 366 && self.weekday <= 6
    }

    /// The date that a text of the form `YYYY-MM-DD` stands for, or `None`
    /// where the text is no date.
    pub fn parse(text: &str) -> (date: Option<CalendarDate>)
        ensures
            date == iso_date(text@),
            date matches Some(d) ==> d.wf(),
    {
        date_of_text(text)
    }
}

/// The day numbers that bound the windows of one "today".
///
/// Weeks start on Monday, whatever day the rows of a grid start on. The
/// current week, month and year are open to the right: each holds every day
/// from its start on. Last week is the seven days before `week_start`.
#[derive(Clone, Copy, Debug, PartialEq, Eq, Structural)]
pub struct DateWindows {
    pub today: i64,
    pub week_start: i64,
    pub last_week_start: i64,
    pub last_week_end: i64,
    pub month_start: i64,
    pub year_start: i64,
}

impl DateWindows {
    /// The windows of `today`: the week starts `weekday` days before it, the
    /// month `day - 1` days before it, the year `ordinal - 1` days before it.
    pub open spec fn of(today: CalendarDate) -> DateWindows {
        DateWindows {
            today: today.day_number as i64,
            week_start: (today.day_number - today.weekday) as i64,
            last_week_start: (today.day_number - today.weekday - 7) as i64,
            last_week_end: (today.day_number - today.weekday - 1) as i64,
            month_start: (today.day_number - (today.day - 1)) as i64,
            year_start: (today.day_number - (today.ordinal - 1)) as i64,
        }
    }

    /// Computes the windows of `today`.
    pub fn for_today(today: &CalendarDate) -> (windows: DateWindows)
        ensures
            windows == Self::of(*today),
    {
        let day_number: i64 = today.day_number as i64;
        let week_start: i64 = day_number - today.weekday as i64;
        DateWindows {
            today: day_number,
            week_start,
            last_week_start: week_start - 7,
            last_week_end: week_start - 1,
            month_start: day_number - (today.day as i64 - 1),
            year_start: day_number - (today.ordinal as i64 - 1),
        }
    }

    /// Whether the day `day_number` falls in the current week.
    pub open spec fn in_this_week(self, day_number: int) -> bool {
        self.week_start <= day_number
    }

    /// Whether the day `day_number` falls in last week.
    pub open spec fn in_last_week(self, day_number: int) -> bool {
        self.last_week_start <= day_number <= self.last_week_end
    }
}

/// On a Monday the week starts today, and last week ended yesterday.
pub proof fn lemma_monday_starts_the_week(today: CalendarDate)
    requires
        today.weekday == 0,
    ensures
        DateWindows::of(today).week_start == today.day_number,
        DateWindows::of(today).last_week_end == today.day_number - 1,
{
}

/// Last week and the current week lie side by side: last week is the seven
/// days that end on the day before `week_start`, so no day is in both, and
/// no day lies between them.
pub proof fn lemma_weeks_are_adjacent(today: CalendarDate, day_number: int)
    ensures
        DateWindows::of(today).last_week_end + 1 == DateWindows::of(today).week_start,
        DateWindows::of(today).last_week_start + 7 == DateWindows::of(today).week_start,
        !(DateWindows::of(today).in_last_week(day_number) && DateWindows::of(today).in_this_week(
            day_number,
        )),
        DateWindows::of(today).last_week_start <= day_number ==> (DateWindows::of(
            today,
        ).in_last_week(day_number) || DateWindows::of(today).in_this_week(day_number)),
{
}

/// Today lies in its own week, month and year; the week began at most six
/// days ago, and the month no earlier than the year.
pub proof fn lemma_today_is_in_its_windows(today: CalendarDate)
    requires
        today.wf(),
    ensures
        DateWindows::of(today).week_start <= today.day_number < DateWindows::of(today).week_start
            + 7,
        DateWindows::of(today).year_start <= DateWindows::of(today).month_start
            <= today.day_number,
{
}

/// A moment of time: whole seconds since 1970-01-01 00:00:00 UTC, leap
/// seconds not counted, and the nanoseconds since that second began. Within
/// a leap second the nanoseconds go on from a thousand million.
#[derive(Clone, Copy, Debug, PartialEq, Eq, Structural)]
pub struct Timestamp {
    pub seconds: i64,
    pub nanos: u32,
}

impl Timestamp {
    /// `self` is no later than `other`.
    pub open spec fn at_or_before(self, other: Timestamp) -> bool {
        self.seconds < other.seconds || (self.seconds == other.seconds && self.nanos
            <= other.nanos)
    }

    /// Whether `self` is no later than `other`.
    pub fn is_at_or_before(&self, other: &Timestamp) -> (earlier: bool)
        ensures
            earlier == self.at_or_before(*other),
    {
        self.seconds < other.seconds || (self.seconds == other.seconds && self.nanos
            <= other.nanos)
    }

    /// The moment that a text in the form of RFC 3339 stands for, or `None`
    /// where the text is no such moment.
    pub fn parse(text: &str) -> (moment: Option<Timestamp>)
        ensures
            moment == rfc3339_timestamp(text@),
    {
        timestamp_of_text(text)
    }

    /// The moment as `YYYY-MM-DDTHH:MM:SSZ` in UTC, or `None` where the
    /// moment is outside the years that can be written.
    pub fn to_utc_text(&self) -> (text: Option<String>)
        ensures
            match text {
                Some(written) => utc_text(self.seconds as int, self.nanos as int) == Some(
                    written@,
                ),
                None => utc_text(self.seconds as int, self.nanos as int) is None,
            },
    {
        text_of_timestamp(self)
    }
}

/// A time of day on a day of the calendar, in the machine's time zone.
#[derive(Clone, Copy, Debug, PartialEq, Eq, Structural)]
pub struct LocalMoment {
    pub day_number: i32,
    pub hour: u32,
    pub minute: u32,
    pub second: u32,
}

impl LocalMoment {
    /// The moment in UTC, or `None` where the machine's time zone gives the
    /// local time no single moment: the clock skipped it or showed it
    /// twice, the time of day or the day does not exist, or the zone could
    /// not be read.
    ///
    /// Which moment comes back is the time zone's to say. Whatever the
    /// zone, the moment is the local time moved by the zone's offset from
    /// UTC, which is less than a day either way, and it falls on a whole
    /// second.
    pub fn to_utc(&self) -> (moment: Option<Timestamp>)
        ensures
            !self.is_time_of_day() ==> moment is None,
            moment matches Some(at) ==> self.may_be(at),
    {
        utc_of_local(self.day_number, self.hour, self.minute, self.second)
    }

    /// The hour, minute and second are those of a time of day.
    pub open spec fn is_time_of_day(self) -> bool {
        self.hour <= 23 && self.minute <= 59 && self.second <= 59
    }

    /// The seconds since 1970-01-01 00:00:00 at which a clock that keeps
    /// UTC shows this local time.
    pub open spec fn seconds_as_utc(self) -> int {
        (self.day_number - EPOCH_DAY_NUMBER) * 86_400 + self.hour * 3_600 + self.minute * 60
            + self.second
    }

    /// `at` may be the moment of this local time in some time zone: the
    /// local time is a time of day, and `at` is a whole second less than a
    /// day before or after the moment at which UTC shows it.
    pub open spec fn may_be(self, at: Timestamp) -> bool {
        &&& self.is_time_of_day()
        &&& at.nanos == 0
        &&& -86_400 < at.seconds - self.seconds_as_utc() < 86_400
    }
}

/// The day number of 1970-01-01.
pub const EPOCH_DAY_NUMBER: i32 = 719_163;

/// What `chrono` reads out of a text under the format `%Y-%m-%d`.
pub uninterp spec fn iso_date(text: Seq<char>) -> Option<CalendarDate>;

/// Calls `chrono::NaiveDate::parse_from_str` with the format `%Y-%m-%d` and
/// reads the fields of the date it returns. Believed, not proved: the result
/// depends on the text alone; a date that comes back has its month in 1..=12,
/// its day in 1..=31, its day of the year in 1..=366 and no smaller than the
/// day of the month, and its weekday in 0..=6.
#[verifier::external_body]
fn date_of_text(text: &str) -> (date: Option<CalendarDate>)
    ensures
        date == iso_date(text@),
        date matches Some(d) ==> d.wf(),
{
    match NaiveDate::parse_from_str(text, "%Y-%m-%d") {
        Ok(d) => Some(
            CalendarDate {
                day_number: d.num_days_from_ce(),
                year: d.year(),
                month: d.month(),
                day: d.day(),
                ordinal: d.ordinal(),
                weekday: d.weekday().num_days_from_monday(),
            },
        ),
        Err(_) => None,
    }
}

/// The moment that `chrono` reads out of a text in the form of RFC 3339.
pub uninterp spec fn rfc3339_timestamp(text: Seq<char>) -> Option<Timestamp>;

/// What `chrono` writes for a moment under the format `%Y-%m-%dT%H:%M:%SZ`.
pub uninterp spec fn utc_text(seconds: int, nanos: int) -> Option<Seq<char>>;

/// Calls `chrono::DateTime::parse_from_rfc3339` and reads the moment's
/// seconds and nanoseconds. Believed, not proved: the result depends on the
/// text alone.
#[verifier::external_body]
fn timestamp_of_text(text: &str) -> (moment: Option<Timestamp>)
    ensures
        moment == rfc3339_timestamp(text@),
{
    match DateTime::parse_from_rfc3339(text) {
        Ok(at) => Some(Timestamp { seconds: at.timestamp(), nanos: at.timestamp_subsec_nanos() }),
        Err(_) => None,
    }
}

/// Calls `chrono::DateTime::from_timestamp` and writes the moment with
/// `format("%Y-%m-%dT%H:%M:%SZ")`. Believed, not proved: the result depends
/// on the two numbers alone.
#[verifier::external_body]
fn text_of_timestamp(moment: &Timestamp) -> (text: Option<String>)
    ensures
        match text {
            Some(written) => utc_text(moment.seconds as int, moment.nanos as int) == Some(
                written@,
            ),
            None => utc_text(moment.seconds as int, moment.nanos as int) is None,
        },
{
    match DateTime::from_timestamp(moment.seconds, moment.nanos) {
        Some(at) => Some(at.format("%Y-%m-%dT%H:%M:%SZ").to_string()),
        None => None,
    }
}

/// Makes the local time with `chrono::NaiveDate::from_num_days_from_ce_opt`
/// and `and_hms_opt`, calls `chrono::Local.from_local_datetime` on it, and
/// reads the seconds and nanoseconds of the single moment that it maps to.
/// The result depends on the machine's time zone. Believed, not proved: an
/// hour above 23, a minute above 59 or a second above 59 gives `None`; a
/// moment that comes back is the local time less the zone's offset, which
/// `chrono` keeps strictly between -86400 and 86400 seconds, so it has no
/// nanoseconds and its seconds are less than a day from those of the local
/// time read as UTC.
#[verifier::external_body]
fn utc_of_local(day_number: i32, hour: u32, minute: u32, second: u32) -> (moment: Option<
    Timestamp,
>)
    ensures
        hour > 23 || minute > 59 || second > 59 ==> moment is None,
        moment matches Some(at) ==> (LocalMoment { day_number, hour, minute, second }).may_be(at),
{
    let day = NaiveDate::from_num_days_from_ce_opt(day_number)?;
    let time = day.and_hms_opt(hour, minute, second)?;
    let at = Local.from_local_datetime(&time).single()?;
    Some(Timestamp { seconds: at.timestamp(), nanos: at.timestamp_subsec_nanos() })
}

} // verus!
