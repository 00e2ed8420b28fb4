//! Calendar values as the kernel reports them, and their conversion to seconds.
use vstd::prelude::*;

verus! {

/// A calendar date (day of month, month, year).
#[derive(Debug, Clone, Copy, PartialEq, Eq, Structural)]
pub struct Date {
    pub day: u8,
    pub month: u8,
    pub year: u16,
}

/// A time of day.
#[derive(Debug, Clone, Copy, PartialEq, Eq, Structural, Default)]
pub struct Time {
    pub second: u8,
    pub minute: u8,
    pub hour: u8,
}

/// A date together with a time of day.
#[derive(Debug, Clone, Copy, PartialEq, Eq, Structural)]
pub struct DateTime {
    pub date: Date,
    pub time: Time,
}

/// Month and year after moving January and February to the end of the previous year.
pub open spec fn shifted_month(d: Date) -> int {
    if d.month <= 2 { d.month + 12 } else { d.month as int }
}

pub open spec fn shifted_year(d: Date) -> int {
    if d.month <= 2 { d.year - 1 } else { d.year as int }
}

/// A date is countable unless shifting January or February would move year 0 below zero.
pub open spec fn date_countable(d: Date) -> bool {
    !(d.month <= 2 && d.year == 0)
}

/// The day count that `Date::total_days` computes: eras of 400 years of 146097 days, the
/// day of the era from the year of the era, and `(306 * month + 5) / 10 + day` for the day
/// of the year.
pub open spec fn day_count(d: Date) -> int {
    let y = shifted_year(d);
    let m = shifted_month(d);
    let era = y / 400;
    let yoe = y % 400;
    let doy = (306 * m + 5) / 10 + d.day;
    let doe = yoe * 365 + yoe / 4 - yoe / 100 + doy;
    era * 146097 + doe
}

pub open spec fn second_of_day(t: Time) -> int {
    t.hour * 3600 + t.minute * 60 + t.second
}

pub open spec fn total_seconds_of(dt: DateTime) -> int {
    day_count(dt.date) * 86400 + second_of_day(dt.time)
}

pub open spec fn unix_epoch_datetime() -> DateTime {
    DateTime { date: Date { day: 1, month: 1, year: 1970 }, time: Time { second: 0, minute: 0, hour: 0 } }
}

/// Seconds counted from the start of 1970-01-01 by the same day count.
pub open spec fn unix_seconds(dt: DateTime) -> int {
    total_seconds_of(dt) - total_seconds_of(unix_epoch_datetime())
}

/// The decimal value of a packed BCD byte: high nibble times ten plus low nibble.
pub open spec fn bcd_value(bcd: u8) -> int {
    (bcd / 16) * 10 + bcd % 16
}

proof fn lemma_day_count_bounds(d: Date)
    requires
        date_countable(d),
    ensures
        0 <= day_count(d) <= 163 * 146097 + 399 * 365 + 99 + 7835 + 255,
{
    let y = shifted_year(d);
    let m = shifted_month(d);
    assert(0 <= y <= 65535);
    assert(0 <= y / 400 <= 163);
    assert(0 <= y % 400 < 400);
    let yoe = y % 400;
    assert(yoe / 4 >= yoe / 100);
    assert((306 * m + 5) / 10 <= 7835) by {
        assert(m <= 255);
    }
    assert((y / 400) * 146097 <= 163 * 146097) by (nonlinear_arith)
        requires 0 <= y / 400 <= 163;
    assert(yoe * 365 <= 399 * 365);
}

impl Date {
    /// Number of days from a fixed origin, by an era/day-of-era count.
    pub fn total_days(&self) -> (days: usize)
        requires
            date_countable(*self),
        ensures
            days == day_count(*self),
    {
        proof { lemma_day_count_bounds(*self); }
        let mut this = *self;
        if this.month <= 2 {
            this.month = this.month + 12;
            this.year = this.year - 1;
        }
        let era = (this.year / 400) as usize;
        let year_of_era = (this.year % 400) as usize;
        let day_of_year = (306 * (this.month as usize) + 5) / 10 + (this.day as usize);
        assert(year_of_era / 4 >= year_of_era / 100);
        let day_of_era = year_of_era * 365 + year_of_era / 4 - year_of_era / 100 + day_of_year;
        assert(era * 146097 <= 163 * 146097) by (nonlinear_arith)
            requires era <= 163;
        era * 146097 + day_of_era
    }
}

impl Time {
    /// Seconds since the start of the day.
    pub fn total_seconds(&self) -> (secs: usize)
        ensures
            secs == second_of_day(*self),
            secs == 3600 * (self.hour as int) + 60 * (self.minute as int) + self.second as int,
    {
        let hs = (self.hour as usize) * 3600;
        let ms = (self.minute as usize) * 60;
        hs + ms + (self.second as usize)
    }
}

fn seconds_from_origin(dt: &DateTime) -> (secs: u64)
    requires
        date_countable(dt.date),
    ensures
        secs == total_seconds_of(*dt),
{
    proof { lemma_day_count_bounds(dt.date); }
    let days = dt.date.total_days() as u64;
    let seconds = dt.time.total_seconds() as u64;
    (days * 24 * 3600) + seconds
}

impl DateTime {
    /// Whether `to_unix` can read this date and time: the date is countable and not before
    /// 1970-01-01 00:00:00 by the day count.
    pub fn counts_from_unix_epoch(&self) -> (b: bool)
        ensures
            b == (date_countable(self.date) && unix_seconds(*self) >= 0),
    {
        if self.date.month <= 2 && self.date.year == 0 {
            return false;
        }
        let unix = DateTime {
            date: Date { day: 1, month: 1, year: 1970 },
            time: Time { second: 0, minute: 0, hour: 0 },
        };
        seconds_from_origin(self) >= seconds_from_origin(&unix)
    }

    /// Seconds between 1970-01-01 00:00:00 and this date and time, by the day count of
    /// `Date::total_days`.
    pub fn to_unix(&self) -> (secs: u64)
        requires
            date_countable(self.date),
            unix_seconds(*self) >= 0,
        ensures
            secs == unix_seconds(*self),
    {
        let unix = DateTime {
            date: Date { day: 1, month: 1, year: 1970 },
            time: Time { second: 0, minute: 0, hour: 0 },
        };
        let a = seconds_from_origin(self);
        let b = seconds_from_origin(&unix);
        a - b
    }
}

/// 1970-01-01 00:00:00 is second 0.
pub proof fn lemma_unix_epoch_is_zero()
    ensures
        unix_seconds(unix_epoch_datetime()) == 0,
{
}

/// Within a month the next day comes 86400 seconds later, at the same time of day.
pub proof fn lemma_next_day(dt: DateTime)
    requires
        dt.date.day < 255,
    ensures
        unix_seconds(DateTime { date: Date { day: (dt.date.day + 1) as u8, ..dt.date }, ..dt })
            == unix_seconds(dt) + 86400,
{
}

/// A later time of the same day comes that many seconds later.
pub proof fn lemma_same_day(date: Date, t1: Time, t2: Time)
    ensures
        unix_seconds(DateTime { date, time: t2 }) - unix_seconds(DateTime { date, time: t1 })
            == second_of_day(t2) - second_of_day(t1),
{
}

/// The seconds of a time of day are its hours, minutes and seconds on a 24-hour clock:
/// 3600 per hour, 60 per minute, one per second, counted from midnight.
pub proof fn lemma_second_of_day_is_24_hour_clock(t: Time)
    ensures
        second_of_day(t) == 3600 * (t.hour as int) + 60 * (t.minute as int) + t.second as int,
        second_of_day(Time { second: 0, minute: 0, hour: 0 }) == 0,
{
}

/// On the same date, one hour later is 3600 seconds later, one minute later 60 seconds
/// later and one second later one second later, at every hour of the day.
pub proof fn lemma_clock_steps(date: Date, t: Time)
    ensures
        t.hour < 255 ==> unix_seconds(DateTime { date, time: Time { hour: (t.hour + 1) as u8, ..t } })
            == unix_seconds(DateTime { date, time: t }) + 3600,
        t.minute < 255 ==> unix_seconds(DateTime { date, time: Time { minute: (t.minute + 1) as u8, ..t } })
            == unix_seconds(DateTime { date, time: t }) + 60,
        t.second < 255 ==> unix_seconds(DateTime { date, time: Time { second: (t.second + 1) as u8, ..t } })
            == unix_seconds(DateTime { date, time: t }) + 1,
{
}

/// Whether a year is a leap year of the Gregorian calendar.
pub open spec fn gregorian_leap(y: int) -> bool {
    y % 4 == 0 && (y % 100 != 0 || y % 400 == 0)
}

/// From March on, the same day a year later comes 365 days later, or 366 when the February
/// in between has a 29th.
pub proof fn lemma_day_count_next_year(d: Date)
    requires
        d.month >= 3,
        d.year < 65535,
    ensures
        day_count(Date { year: (d.year + 1) as u16, ..d }) - day_count(d)
            == 365 + (if gregorian_leap(d.year + 1) { 1int } else { 0int }),
{
    let y = d.year as int;
    let e = Date { year: (d.year + 1) as u16, ..d };
    assert(shifted_year(d) == y);
    assert(shifted_year(e) == y + 1);
    assert(y == (y / 400) * 400 + y % 400) by (nonlinear_arith)
        requires 0 <= y;
    if y % 400 == 399 {
        assert((y + 1) / 400 == y / 400 + 1 && (y + 1) % 400 == 0) by (nonlinear_arith)
            requires 0 <= y, y % 400 == 399, y == (y / 400) * 400 + y % 400;
        assert((y + 1) % 4 == 0 && (y + 1) % 100 == 0) by (nonlinear_arith)
            requires (y + 1) % 400 == 0, 0 <= y;
    } else {
        assert((y + 1) / 400 == y / 400 && (y + 1) % 400 == y % 400 + 1) by (nonlinear_arith)
            requires 0 <= y, y % 400 != 399, y == (y / 400) * 400 + y % 400, 0 <= y % 400 < 400;
        let k = y % 400;
        assert((k + 1) / 4 - k / 4 == (if (k + 1) % 4 == 0 { 1int } else { 0int })) by (nonlinear_arith)
            requires 0 <= k;
        assert((k + 1) / 100 - k / 100 == (if (k + 1) % 100 == 0 { 1int } else { 0int })) by (nonlinear_arith)
            requires 0 <= k;
        assert((y + 1) % 4 == (k + 1) % 4 && (y + 1) % 100 == (k + 1) % 100) by (nonlinear_arith)
            requires k == y % 400, 0 <= y, y == (y / 400) * 400 + k;
        assert((y + 1) % 400 != 0);
    }
}

/// The day count repeats every 400 years, which hold exactly 146097 days.
pub proof fn lemma_day_count_400_years(d: Date)
    requires
        date_countable(d),
        d.year <= 65535 - 400,
    ensures
        day_count(Date { year: (d.year + 400) as u16, ..d }) == day_count(d) + 146097,
{
    let e = Date { year: (d.year + 400) as u16, ..d };
    let y = shifted_year(d);
    assert(shifted_year(e) == y + 400);
    assert((y + 400) / 400 == y / 400 + 1 && (y + 400) % 400 == y % 400) by (nonlinear_arith)
        requires 0 <= y;
}

} // verus!
