//! Calendar days as the endpoints take them: a year, a month and a day,
//! written `YYYY-MM-DD`.

use vstd::prelude::*;
use crate::text::{digit_char, digit_str};

verus! {

/// Whether `year` has a 29th of February.
pub open spec fn is_leap_year(year: int) -> bool {
    year % 4 == 0 && (year % 100 != 0 || year % 400 == 0)
}

/// The number of days of a month.
pub open spec fn days_in_month(year: int, month: int) -> int {
    if month == 2 {
        if is_leap_year(year) {
            29
        } else {
            28
        }
    } else if month == 4 || month == 6 || month == 9 || month == 11 {
        30
    } else {
        31
    }
}

/// The days that a `Date` can hold: a day that exists in the calendar, in a
/// year that four digits can write.
pub open spec fn is_calendar_day(year: int, month: int, day: int) -> bool {
    &&& 0 <= year <= 9999
    &&& 1 <= month <= 12
    &&& 1 <= day <= days_in_month(year, month)
}

/// A number below 100 in two digits.
pub open spec fn two_digits(n: int) -> Seq<char> {
    seq![digit_char(n / 10), digit_char(n % 10)]
}

/// A day as text: the year in four digits, the month and the day in two,
/// joined by hyphens.
pub open spec fn iso_text(year: int, month: int, day: int) -> Seq<char> {
    two_digits(year / 100) + two_digits(year % 100) + seq!['-'] + two_digits(month) + seq!['-']
        + two_digits(day)
}

/// The day in UTC that holds the moment `secs` seconds after the start of
/// 1970, as year, month and day; `None` where the calendar in use has no day
/// for it.
pub uninterp spec fn utc_civil_date(secs: int) -> Option<(int, int, int)>;

/// The day of `secs` seconds after the start of 1970 as a `Date` holds it.
pub open spec fn date_of_timestamp(secs: int) -> Option<(int, int, int)> {
    match utc_civil_date(secs) {
        Some((year, month, day)) => if is_calendar_day(year, month, day) {
            Some((year, month, day))
        } else {
            None
        },
        None => None,
    }
}

/// Asks `chrono::DateTime::from_timestamp` for the moment `secs` seconds
/// after the start of 1970 and reads the year, month and day of its UTC
/// date. Trusted: the triple is a function of `secs` alone, named
/// `utc_civil_date`, and is absent exactly when chrono returns `None`.
#[verifier::external_body]
fn civil_date_of_timestamp(secs: i64) -> (r: Option<(i32, u32, u32)>)
    ensures
        match r {
            Some((year, month, day)) => utc_civil_date(secs as int) == Some(
                (year as int, month as int, day as int),
            ),
            None => utc_civil_date(secs as int) is None,
        },
{
    match chrono::DateTime::from_timestamp(secs, 0) {
        Some(moment) => {
            let date = moment.naive_utc().date();
            Some(
                (
                    chrono::Datelike::year(&date),
                    chrono::Datelike::month(&date),
                    chrono::Datelike::day(&date),
                ),
            )
        },
        None => None,
    }
}

#[verifier::external_type_specification]
#[verifier::external_body]
pub struct ExSystemTime(std::time::SystemTime);

#[verifier::external_type_specification]
#[verifier::external_body]
pub struct ExSystemTimeError(std::time::SystemTimeError);

/// Calls `std::time::SystemTime::now`. Trusted, with nothing claimed of the
/// moment that the clock shows.
#[verifier::external_body]
fn clock_now() -> (now: std::time::SystemTime) {
    std::time::SystemTime::now()
}

/// Calls `std::time::SystemTime::duration_since` with the start of 1970.
/// Trusted, with nothing claimed of the outcome: an error is a moment
/// before 1970.
#[verifier::external_body]
fn since_epoch(moment: &std::time::SystemTime) -> (elapsed: Result<
    core::time::Duration,
    std::time::SystemTimeError,
>) {
    moment.duration_since(std::time::UNIX_EPOCH)
}

/// Calls `core::time::Duration::as_secs`. Trusted, with nothing claimed of
/// the number.
#[verifier::external_body]
fn whole_seconds(elapsed: &core::time::Duration) -> (secs: u64) {
    elapsed.as_secs()
}

/// The reading of the system clock in whole seconds since the start of
/// 1970, or `None` where the clock stands before it.
fn unix_time_now() -> (secs: Option<u64>) {
    let now = clock_now();
    match since_epoch(&now) {
        Ok(elapsed) => Some(whole_seconds(&elapsed)),
        Err(_) => None,
    }
}

/// A day of the calendar.
#[derive(Debug, Clone, Copy, PartialEq, Eq)]
pub struct Date {
    year: i32,
    month: u32,
    day: u32,
}

impl View for Date {
    type V = (int, int, int);

    closed spec fn view(&self) -> (int, int, int) {
        (self.year as int, self.month as int, self.day as int)
    }
}

fn two_digit_string(n: u32) -> (r: String)
    requires
        n < 100,
    ensures
        r@ == two_digits(n as int),
{
    let mut r = digit_str((n / 10) as u64).to_owned();
    r.append(digit_str((n % 10) as u64));
    assert(r@ =~= two_digits(n as int));
    r
}

impl Date {
    #[verifier::type_invariant]
    spec fn in_calendar(self) -> bool {
        is_calendar_day(self.year as int, self.month as int, self.day as int)
    }

    /// The day with this year, month and day, where the calendar has it.
    pub fn from_ymd_opt(year: i32, month: u32, day: u32) -> (r: Option<Date>)
        ensures
            r is Some <==> is_calendar_day(year as int, month as int, day as int),
            r is Some ==> r->Some_0@ == (year as int, month as int, day as int),
    {
        if year < 0 || year > 9999 || month < 1 || month > 12 || day < 1 {
            return None;
        }
        let leap = year % 4 == 0 && (year % 100 != 0 || year % 400 == 0);
        let days: u32 = if month == 2 {
            if leap {
                29
            } else {
                28
            }
        } else if month == 4 || month == 6 || month == 9 || month == 11 {
            30
        } else {
            31
        };
        if day > days {
            None
        } else {
            Some(Date { year, month, day })
        }
    }

    /// The day in UTC of the moment `secs` seconds after the start of 1970.
    pub fn from_timestamp(secs: i64) -> (r: Option<Date>)
        ensures
            r is Some <==> date_of_timestamp(secs as int) is Some,
            r is Some ==> Some(r->Some_0@) == date_of_timestamp(secs as int),
    {
        match civil_date_of_timestamp(secs) {
            Some((year, month, day)) => Date::from_ymd_opt(year, month, day),
            None => None,
        }
    }

    /// The day in UTC that the system clock shows: what `from_clock_reading`
    /// gives for the reading that the clock hands out at the call. Two
    /// calls may differ, and the clock alone decides whether there is a day.
    pub fn today() -> (r: Option<Date>)
        ensures
            exists|reading: Option<u64>| day_of(r) == date_of_reading(reading),
            r is Some ==> exists|secs: int| 0 <= secs && date_of_timestamp(secs) == Some(r->Some_0@),
    {
        let reading = unix_time_now();
        let r = Date::from_clock_reading(reading);
        proof {
            assert(day_of(r) == date_of_reading(reading));
            if r is Some {
                let secs = reading->Some_0 as int;
                assert(0 <= secs && date_of_timestamp(secs) == Some(r->Some_0@));
            }
        }
        r
    }

    /// The day in UTC for a reading of the clock in whole seconds since the
    /// start of 1970. There is none where the clock gave no reading, where
    /// the reading is beyond the timestamps that can be asked for, or where
    /// its day is none that a `Date` can hold.
    pub fn from_clock_reading(reading: Option<u64>) -> (r: Option<Date>)
        ensures
            day_of(r) == date_of_reading(reading),
    {
        match reading {
            Some(secs) => {
                if secs > 0x7fff_ffff_ffff_ffff {
                    None
                } else {
                    Date::from_timestamp(secs as i64)
                }
            },
            None => None,
        }
    }

    /// The year.
    pub fn year(&self) -> (r: i32)
        ensures
            r == self@.0,
            is_calendar_day(self@.0, self@.1, self@.2),
    {
        proof {
            use_type_invariant(self);
        }
        self.year
    }

    /// The month, from 1.
    pub fn month(&self) -> (r: u32)
        ensures
            r == self@.1,
            is_calendar_day(self@.0, self@.1, self@.2),
    {
        proof {
            use_type_invariant(self);
        }
        self.month
    }

    /// The day of the month, from 1.
    pub fn day(&self) -> (r: u32)
        ensures
            r == self@.2,
            is_calendar_day(self@.0, self@.1, self@.2),
    {
        proof {
            use_type_invariant(self);
        }
        self.day
    }

    /// The day as `YYYY-MM-DD`.
    pub fn to_string(&self) -> (r: String)
        ensures
            r@ == iso_text(self@.0, self@.1, self@.2),
            r@.len() == 10,
            is_calendar_day(self@.0, self@.1, self@.2),
    {
        proof {
            use_type_invariant(self);
            reveal_strlit("-");
            assert("-"@ =~= seq!['-']);
        }
        let year = self.year as u32;
        let mut r = two_digit_string(year / 100);
        r.append(two_digit_string(year % 100).as_str());
        r.append("-");
        r.append(two_digit_string(self.month).as_str());
        r.append("-");
        r.append(two_digit_string(self.day).as_str());
        r
    }
}

/// The year, month and day of a day that may be absent.
pub open spec fn day_of(date: Option<Date>) -> Option<(int, int, int)> {
    match date {
        Some(d) => Some(d@),
        None => None,
    }
}

/// The day that a reading of the clock stands for: the day of its
/// timestamp, where there is a reading and it is no more than the largest
/// timestamp.
pub open spec fn date_of_reading(reading: Option<u64>) -> Option<(int, int, int)> {
    match reading {
        Some(secs) => if secs <= i64::MAX {
            date_of_timestamp(secs as int)
        } else {
            None
        },
        None => None,
    }
}

} // verus!
