//! Local wall-clock timestamps and the computation of the next wake moment.
use chrono::{Datelike, Timelike};
use vstd::prelude::*;

verus! {

/// Earliest year of the proleptic Gregorian calendar that chrono represents.
pub const MIN_YEAR: i32 = -262143;

/// Latest year of the proleptic Gregorian calendar that chrono represents.
pub const MAX_YEAR: i32 = 262142;

pub open spec fn is_leap_year(y: int) -> bool {
    y % 4 == 0 && (y % 100 != 0 || y % 400 == 0)
}

pub open spec fn days_in_month(y: int, m: int) -> int {
    if m == 2 {
        if is_leap_year(y) {
            29
        } else {
            28
        }
    } else if m == 4 || m == 6 || m == 9 || m == 11 {
        30
    } else {
        31
    }
}

/// A calendar date that chrono can represent.
pub open spec fn valid_date(y: int, m: int, d: int) -> bool {
    MIN_YEAR <= y <= MAX_YEAR && 1 <= m <= 12 && 1 <= d <= days_in_month(y, m)
}

/// The last date that chrono can represent.
pub open spec fn is_last_date(y: int, m: int, d: int) -> bool {
    y == MAX_YEAR && m == 12 && d == 31
}

/// The calendar day after `(y, m, d)`.
pub open spec fn next_date(y: int, m: int, d: int) -> (int, int, int) {
    if d < days_in_month(y, m) {
        (y, m, d + 1)
    } else if m < 12 {
        (y, m + 1, 1)
    } else {
        (y + 1, 1, 1)
    }
}

/// The day after a valid date, absent past the last representable date.
pub open spec fn next_date_opt(y: i32, m: u32, d: u32) -> Option<(i32, u32, u32)> {
    if valid_date(y as int, m as int, d as int) && !is_last_date(y as int, m as int, d as int) {
        let n = next_date(y as int, m as int, d as int);
        Some((n.0 as i32, n.1 as u32, n.2 as u32))
    } else {
        None
    }
}

/// A local date and time of day, to the second, without a time zone.
#[derive(Clone, Copy, Debug, PartialEq, Eq, Structural)]
pub struct LocalDateTime {
    pub year: i32,
    pub month: u32,
    pub day: u32,
    pub hour: u32,
    pub minute: u32,
    pub second: u32,
}

impl LocalDateTime {
    /// A real calendar moment within chrono's range.
    pub open spec fn wf(&self) -> bool {
        valid_date(self.year as int, self.month as int, self.day as int) && self.hour < 24
            && self.minute < 60 && self.second < 60
    }

    pub open spec fn same_date(&self, o: LocalDateTime) -> bool {
        self.year == o.year && self.month == o.month && self.day == o.day
    }

    pub open spec fn is_next_date_of(&self, o: LocalDateTime) -> bool {
        let n = next_date(o.year as int, o.month as int, o.day as int);
        self.year as int == n.0 && self.month as int == n.1 && self.day as int == n.2
    }
}

/// `a` comes strictly before `b` on the wall clock.
pub open spec fn is_before(a: LocalDateTime, b: LocalDateTime) -> bool {
    a.year < b.year || (a.year == b.year && (a.month < b.month || (a.month == b.month && (a.day
        < b.day || (a.day == b.day && (a.hour < b.hour || (a.hour == b.hour && (a.minute
        < b.minute || (a.minute == b.minute && a.second < b.second)))))))))
}

/// `hour:minute:00` on the date of `t`.
pub open spec fn at_time_of_day(t: LocalDateTime, hour: u32, minute: u32) -> LocalDateTime {
    LocalDateTime { hour, minute, second: 0, ..t }
}

/// The first moment strictly after `now` whose wall clock reads `hour:minute:00`,
/// looked for on `now`'s date and on the day after.
pub open spec fn next_wake_spec(hour: u8, minute: u8, now: LocalDateTime) -> LocalDateTime {
    let today = at_time_of_day(now, hour as u32, minute as u32);
    if is_before(now, today) {
        today
    } else {
        let n = next_date(now.year as int, now.month as int, now.day as int);
        LocalDateTime { year: n.0 as i32, month: n.1 as u32, day: n.2 as u32, ..today }
    }
}

pub open spec fn digit_char(n: int) -> char {
    seq!['0', '1', '2', '3', '4', '5', '6', '7', '8', '9'][n]
}

/// `n` in two decimal digits, zero padded.
pub open spec fn two_digits(n: int) -> Seq<char> {
    seq![digit_char(n / 10), digit_char(n % 10)]
}

/// `n` in four decimal digits, zero padded.
pub open spec fn four_digits(n: int) -> Seq<char> {
    seq![digit_char(n / 1000), digit_char((n / 100) % 10), digit_char((n / 10) % 10), digit_char(n % 10)]
}

/// `n` in decimal, without leading zeros.
pub open spec fn decimal(n: nat) -> Seq<char>
    decreases n,
{
    if n < 10 {
        seq![digit_char(n as int)]
    } else {
        decimal(n / 10).push(digit_char((n % 10) as int))
    }
}

/// A year as chrono's `%Y` writes it: four digits within `0..=9999`, otherwise a sign
/// followed by at least four digits.
pub open spec fn year_text(y: int) -> Seq<char> {
    if 0 <= y <= 9999 {
        four_digits(y)
    } else if y > 9999 {
        seq!['+'] + decimal(y as nat)
    } else if y > -10000 {
        seq!['-'] + four_digits(-y)
    } else {
        seq!['-'] + decimal((-y) as nat)
    }
}

/// `YYYY-MM-DDTHH:MM:SS`.
pub open spec fn iso_text(t: LocalDateTime) -> Seq<char> {
    year_text(t.year as int) + seq!['-'] + two_digits(t.month as int) + seq!['-'] + two_digits(
        t.day as int,
    ) + seq!['T'] + two_digits(t.hour as int) + seq![':'] + two_digits(t.minute as int) + seq![
        ':',
    ] + two_digits(t.second as int)
}

/// `HH:MM`.
pub open spec fn clock_label(hour: int, minute: int) -> Seq<char> {
    two_digits(hour) + seq![':'] + two_digits(minute)
}

/// Relies on chrono's `NaiveDate::from_ymd_opt` and `NaiveDate::succ_opt`: the calendar
/// day after a valid date, none after `NaiveDate::MAX`.
#[verifier::external_body]
fn following_day(year: i32, month: u32, day: u32) -> (r: Option<(i32, u32, u32)>)
    ensures
        r == next_date_opt(year, month, day),
{
    chrono::NaiveDate::from_ymd_opt(year, month, day).and_then(|d| d.succ_opt()).map(
        |n| (n.year(), n.month(), n.day()),
    )
}

/// Relies on chrono's `NaiveDateTime::format` with `%Y-%m-%dT%H:%M:%S`: zero-padded
/// fields; the year in four digits within `0..=9999`, else signed and zero-padded to
/// four digits.
#[verifier::external_body]
fn format_iso(t: &LocalDateTime) -> (r: Option<String>)
    ensures
        t.wf() ==> r is Some && r.unwrap()@ == iso_text(*t),
{
    chrono::NaiveDate::from_ymd_opt(t.year, t.month, t.day).and_then(
        |d| d.and_hms_opt(t.hour, t.minute, t.second),
    ).map(|dt| dt.format("%Y-%m-%dT%H:%M:%S").to_string())
}

/// Relies on chrono's `Local::now`: the current date and time in the machine's zone,
/// truncated to the second.
#[verifier::external_body]
fn local_now() -> (r: LocalDateTime)
    ensures
        r.wf(),
{
    let n = chrono::Local::now().naive_local();
    LocalDateTime {
        year: n.year(),
        month: n.month(),
        day: n.day(),
        hour: n.hour(),
        minute: n.minute(),
        second: n.second(),
    }
}

impl LocalDateTime {
    /// The current local time.
    pub fn now() -> (r: LocalDateTime)
        ensures
            r.wf(),
    {
        local_now()
    }

    /// Whether the date is the last one that can be represented, which has no successor.
    pub fn is_last_date(&self) -> (r: bool)
        ensures
            r == is_last_date(self.year as int, self.month as int, self.day as int),
    {
        self.year == MAX_YEAR && self.month == 12 && self.day == 31
    }

    /// The timestamp as `YYYY-MM-DDTHH:MM:SS`.
    pub fn to_iso_string(&self) -> (r: String)
        requires
            self.wf(),
        ensures
            r@ == iso_text(*self),
    {
        match format_iso(self) {
            Some(s) => s,
            None => String::new(),
        }
    }
}

/// Whether `a` comes strictly before `b`.
pub fn before(a: &LocalDateTime, b: &LocalDateTime) -> (r: bool)
    ensures
        r == is_before(*a, *b),
{
    if a.year != b.year {
        a.year < b.year
    } else if a.month != b.month {
        a.month < b.month
    } else if a.day != b.day {
        a.day < b.day
    } else if a.hour != b.hour {
        a.hour < b.hour
    } else if a.minute != b.minute {
        a.minute < b.minute
    } else {
        a.second < b.second
    }
}

/// The next moment after `now` at which the clock reads `hour:minute:00`: today's if it
/// is still ahead, else the same time on the following calendar day.
pub fn compute_next_wake(hour: u8, minute: u8, now: LocalDateTime) -> (r: LocalDateTime)
    requires
        hour < 24,
        minute < 60,
        now.wf(),
        !is_last_date(now.year as int, now.month as int, now.day as int),
    ensures
        r == next_wake_spec(hour, minute, now),
        r.wf(),
{
    let today = LocalDateTime { hour: hour as u32, minute: minute as u32, second: 0, ..now };
    if before(&now, &today) {
        today
    } else {
        proof {
            lemma_next_date_valid(now.year as int, now.month as int, now.day as int);
        }
        match following_day(now.year, now.month, now.day) {
            Some((y, m, d)) => LocalDateTime { year: y, month: m, day: d, ..today },
            None => today,
        }
    }
}

/// The day after a valid date is a valid date, later than it.
pub proof fn lemma_next_date_valid(y: int, m: int, d: int)
    requires
        valid_date(y, m, d),
        !is_last_date(y, m, d),
    ensures
        valid_date(next_date(y, m, d).0, next_date(y, m, d).1, next_date(y, m, d).2),
        next_date(y, m, d).0 > y || (next_date(y, m, d).0 == y && (next_date(y, m, d).1 > m || (
        next_date(y, m, d).1 == m && next_date(y, m, d).2 > d))),
{
}

/// The computed wake lies strictly after `now`, reads `hour:minute:00`, and falls on
/// `now`'s date or on the day after, never later.
pub proof fn lemma_next_wake_in_window(hour: u8, minute: u8, now: LocalDateTime)
    requires
        hour < 24,
        minute < 60,
        now.wf(),
        !is_last_date(now.year as int, now.month as int, now.day as int),
    ensures
        ({
            let r = next_wake_spec(hour, minute, now);
            &&& r.wf()
            &&& is_before(now, r)
            &&& r.hour == hour as u32 && r.minute == minute as u32 && r.second == 0
            &&& r.same_date(now) || r.is_next_date_of(now)
        }),
{
    lemma_next_date_valid(now.year as int, now.month as int, now.day as int);
}

} // verus!
