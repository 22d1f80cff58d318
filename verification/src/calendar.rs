//! Absolute time: calendar dates as the receiver reports them, and instants
//! counted from the Unix epoch.
//!
//! The calendar itself is chrono's. What this module takes from it is named
//! here and called through three small functions; the arithmetic on instants
//! is done and proved here.

use vstd::prelude::*;
use chrono::Datelike;
use crate::text::{
    decimal,
    decimal_denotes,
    decimal_is_digits,
    is_digit,
    number,
    padded,
    padded_denotes,
    padded_is_digits,
    pow10,
    push_decimal,
    push_padded,
};

verus! {

/// The century that a two-digit year is taken to lie in.
pub const CENTURY: i32 = 2000;

/// A calendar date as three numbers. Nothing is assumed of them: whether
/// such a day exists is for the calendar to say.
#[derive(Clone, Copy, Debug, PartialEq, Eq, Structural)]
pub struct CivilDate {
    pub year: i32,
    pub month: u32,
    pub day: u32,
}

/// A time of day as four numbers.
#[derive(Clone, Copy, Debug, PartialEq, Eq, Structural)]
pub struct TimeOfDay {
    pub hour: u32,
    pub minute: u32,
    pub second: u32,
    pub nanosecond: u32,
}

/// An instant: whole seconds since the Unix epoch, and nanoseconds into the
/// second.
#[derive(Clone, Copy, Debug, PartialEq, Eq, Structural)]
pub struct AbsoluteTime {
    pub seconds: i64,
    pub nanos: u32,
}

/// The first year of the calendar.
pub const MIN_YEAR: i32 = -262_143;

/// The last year of the calendar.
pub const MAX_YEAR: i32 = 262_142;

/// Whether `year` has a 29th of February: every fourth year has, but of the
/// hundreds only every fourth. Years before the year 1 count on backwards,
/// so that the year 0 has one.
pub open spec fn is_leap_year(year: int) -> bool {
    year % 4 == 0 && (year % 100 != 0 || year % 400 == 0)
}

/// The number of days of a month.
pub open spec fn days_in_month(year: int, month: int) -> int {
    if month == 2 {
        if is_leap_year(year) {
            29
        } else {
            28
        }
    } else if month == 4 || month == 6 || month == 9 || month == 11 {
        30
    } else {
        31
    }
}

/// Whether the calendar has the day: the year within its range, the month
/// one of twelve, the day one of the month's.
pub open spec fn date_exists(year: int, month: int, day: int) -> bool {
    &&& MIN_YEAR <= year <= MAX_YEAR
    &&& 1 <= month <= 12
    &&& 1 <= day <= days_in_month(year, month)
}

/// Whether the day has the time: hours, minutes and seconds within their
/// ranges, and nanoseconds of a second or more only in a leap second, which
/// is written as the second 59 running on.
pub open spec fn time_exists(hour: int, minute: int, second: int, nanosecond: int) -> bool {
    &&& 0 <= hour < 24
    &&& 0 <= minute < 60
    &&& 0 <= second < 60
    &&& 0 <= nanosecond < 2_000_000_000
    &&& nanosecond >= 1_000_000_000 ==> second == 59
}

/// The Unix timestamp, in whole seconds, of a date and time of day in UTC;
/// nothing where the calendar has no such day or the day no such time.
pub uninterp spec fn utc_seconds(
    year: int,
    month: int,
    day: int,
    hour: int,
    minute: int,
    second: int,
    nanosecond: int,
) -> Option<i64>;

/// The RFC 3339 text of the instant `seconds` and `nanos` after the epoch, in
/// UTC; nothing where the calendar does not reach that far.
pub uninterp spec fn rfc3339_text(seconds: int, nanos: int) -> Option<Seq<char>>;

/// The instant that lies `elapsed` nanoseconds after `base` (before it, where
/// `elapsed` is negative); nothing where its seconds do not fit.
pub open spec fn shifted(base: AbsoluteTime, elapsed: int) -> Option<AbsoluteTime> {
    let total = base.total_nanos() + elapsed;
    let seconds = total / 1_000_000_000;
    if i64::MIN <= seconds <= i64::MAX {
        Some(AbsoluteTime { seconds: seconds as i64, nanos: (total % 1_000_000_000) as u32 })
    } else {
        None
    }
}

/// A date with its year moved into the century of two-digit years, where the
/// calendar has the day in both years; the date as it is, where it has not.
pub open spec fn in_century(date: CivilDate) -> CivilDate {
    let year = date.year + CENTURY;
    if date_exists(date.year as int, date.month as int, date.day as int) && date_exists(
        year,
        date.month as int,
        date.day as int,
    ) {
        CivilDate { year: year as i32, month: date.month, day: date.day }
    } else {
        date
    }
}

/// The instant of a fix: its date, moved into the century, and its time of
/// day, taken as UTC.
pub open spec fn fix_instant(date: CivilDate, time: TimeOfDay) -> Option<AbsoluteTime> {
    let day = in_century(date);
    match utc_seconds(
        day.year as int,
        day.month as int,
        day.day as int,
        time.hour as int,
        time.minute as int,
        time.second as int,
        time.nanosecond as int,
    ) {
        Some(seconds) => shifted(AbsoluteTime { seconds, nanos: 0 }, time.nanosecond as int),
        None => None,
    }
}

/// `NaiveDate::with_year`, on a date made by `NaiveDate::from_ymd_opt`.
/// chrono makes the first date where the calendar has the day, and the second
/// where it has the same month and day in the year asked for; the new date
/// has that year and the month and day of the old one.
#[verifier::external_body]
fn with_year(date: CivilDate, year: i32) -> (r: Option<CivilDate>)
    ensures
        r == (if date_exists(date.year as int, date.month as int, date.day as int)
            && date_exists(year as int, date.month as int, date.day as int) {
            Some(CivilDate { year, month: date.month, day: date.day })
        } else {
            None
        }),
{
    let given = chrono::NaiveDate::from_ymd_opt(date.year, date.month, date.day)?;
    let moved = given.with_year(year)?;
    Some(CivilDate::new(moved.year(), moved.month(), moved.day()))
}

/// `DateTime::<Utc>::timestamp`, on the date and time made by
/// `NaiveDate::from_ymd_opt` and `NaiveTime::from_hms_nano_opt`. chrono makes
/// the two where the calendar has the day and the day has the time; the
/// number of seconds is chrono's, under the name `utc_seconds`.
#[verifier::external_body]
fn utc_timestamp(date: CivilDate, time: TimeOfDay) -> (r: Option<i64>)
    ensures
        r == utc_seconds(
            date.year as int,
            date.month as int,
            date.day as int,
            time.hour as int,
            time.minute as int,
            time.second as int,
            time.nanosecond as int,
        ),
        r.is_some() == (date_exists(date.year as int, date.month as int, date.day as int)
            && time_exists(
            time.hour as int,
            time.minute as int,
            time.second as int,
            time.nanosecond as int,
        )),
{
    let day = chrono::NaiveDate::from_ymd_opt(date.year, date.month, date.day)?;
    let clock = chrono::NaiveTime::from_hms_nano_opt(
        time.hour,
        time.minute,
        time.second,
        time.nanosecond,
    )?;
    Some(chrono::NaiveDateTime::new(day, clock).and_utc().timestamp())
}

/// `DateTime::<Utc>::to_rfc3339`, on the instant made by
/// `DateTime::from_timestamp`: the text is chrono's, under the name
/// `rfc3339_text`.
#[verifier::external_body]
fn rfc3339(seconds: i64, nanos: u32) -> (r: Option<String>)
    ensures
        r.is_some() == rfc3339_text(seconds as int, nanos as int).is_some(),
        r matches Some(text) ==> rfc3339_text(seconds as int, nanos as int) == Some(text@),
{
    chrono::DateTime::from_timestamp(seconds, nanos).map(|instant| instant.to_rfc3339())
}

impl CivilDate {
    /// A date of the three numbers given.
    pub fn new(year: i32, month: u32, day: u32) -> (date: CivilDate)
        ensures
            date == (CivilDate { year, month, day }),
    {
        CivilDate { year, month, day }
    }

    /// Moves the year into the century of two-digit years: 23 becomes 2023.
    /// A date that the calendar does not have, or not in that year, is left
    /// as it is.
    pub fn normalized(self) -> (date: CivilDate)
        ensures
            date == in_century(self),
    {
        match self.year.checked_add(CENTURY) {
            Some(year) => match with_year(self, year) {
                Some(date) => date,
                None => self,
            },
            None => self,
        }
    }
}

impl TimeOfDay {
    /// A time of day of the four numbers given.
    pub fn new(hour: u32, minute: u32, second: u32, nanosecond: u32) -> (time: TimeOfDay)
        ensures
            time == (TimeOfDay { hour, minute, second, nanosecond }),
    {
        TimeOfDay { hour, minute, second, nanosecond }
    }
}

impl AbsoluteTime {
    /// Nanoseconds since the epoch.
    pub open spec fn total_nanos(self) -> int {
        self.seconds * 1_000_000_000 + self.nanos
    }

    /// Whether the nanoseconds are less than a second.
    pub open spec fn wf(self) -> bool {
        self.nanos < 1_000_000_000
    }

    /// The instant as a decimal number of seconds since the epoch, with a
    /// comma before its nine decimal places: a minus sign for an instant
    /// before the epoch, the whole seconds, the comma, the nanoseconds.
    pub open spec fn unix_text_spec(self) -> Seq<char> {
        let total = self.total_nanos();
        let size = (if total < 0 {
            -total
        } else {
            total
        }) as nat;
        let sign = if total < 0 {
            seq!['-']
        } else {
            Seq::empty()
        };
        sign + decimal(size / 1_000_000_000) + seq![','] + padded(size % 1_000_000_000, 10, 9)
    }

    /// The instant `later - earlier` nanoseconds after this one, or before it
    /// where `earlier` is the greater.
    pub fn advanced(&self, later: u64, earlier: u64) -> (r: Option<AbsoluteTime>)
        ensures
            r == shifted(*self, later as int - earlier as int),
            r matches Some(t) ==> t.wf() && t.total_nanos() == self.total_nanos() + (later - earlier),
    {
        let whole: i128;
        let rest: u64;
        if later >= earlier {
            let gap: u64 = later - earlier;
            rest = self.nanos as u64 + gap % 1_000_000_000;
            whole = self.seconds as i128 + (gap / 1_000_000_000) as i128;
        } else {
            let gap: u64 = earlier - later;
            rest = self.nanos as u64 + 1_000_000_000 - gap % 1_000_000_000;
            whole = self.seconds as i128 - (gap / 1_000_000_000) as i128 - 1;
        }
        let seconds: i128 = whole + (rest / 1_000_000_000) as i128;
        let nanos: u64 = rest % 1_000_000_000;
        assert(self.total_nanos() + (later - earlier) == seconds * 1_000_000_000 + nanos);
        if seconds < i64::MIN as i128 || seconds > i64::MAX as i128 {
            None
        } else {
            Some(AbsoluteTime { seconds: seconds as i64, nanos: nanos as u32 })
        }
    }

    /// The instant given by a Unix timestamp and the nanoseconds of a time of
    /// day, which in a leap second run past the end of the second.
    pub fn from_parts(seconds: i64, nanosecond: u32) -> (r: Option<AbsoluteTime>)
        ensures
            r == shifted(AbsoluteTime { seconds, nanos: 0 }, nanosecond as int),
    {
        let base = AbsoluteTime { seconds, nanos: 0 };
        base.advanced(nanosecond as u64, 0)
    }

    /// The instant of a fix, from the date and the time of day that the
    /// receiver reported.
    pub fn of_fix(date: CivilDate, time: TimeOfDay) -> (r: Option<AbsoluteTime>)
        ensures
            r == fix_instant(date, time),
            r.is_some() ==> date_exists(date.year as int, date.month as int, date.day as int)
                && time_exists(
                time.hour as int,
                time.minute as int,
                time.second as int,
                time.nanosecond as int,
            ),
            r matches Some(t) ==> t.wf(),
    {
        let day = date.normalized();
        match utc_timestamp(day, time) {
            Some(seconds) => AbsoluteTime::from_parts(seconds, time.nanosecond),
            None => None,
        }
    }

    /// Writes the instant as a decimal number of seconds since the epoch,
    /// with a comma before its nine decimal places.
    pub fn unix_text(&self) -> (text: String)
        ensures
            text@ == self.unix_text_spec(),
    {
        let total: i128 = self.seconds as i128 * 1_000_000_000 + self.nanos as i128;
        let size: u128 = if total < 0 {
            (-total) as u128
        } else {
            total as u128
        };
        let whole: u64 = (size / 1_000_000_000) as u64;
        let part: u64 = (size % 1_000_000_000) as u64;
        let mut text = String::new();
        if total < 0 {
            text.push('-');
        }
        push_decimal(&mut text, whole);
        text.push(',');
        push_padded(&mut text, part, 10, 9);
        text
    }

    /// The instant as RFC 3339 text in UTC, where the calendar reaches it.
    pub fn calendar_text(&self) -> (r: Option<String>)
        ensures
            r.is_some() == rfc3339_text(self.seconds as int, self.nanos as int).is_some(),
            r matches Some(text) ==> rfc3339_text(self.seconds as int, self.nanos as int) == Some(
                text@,
            ),
    {
        rfc3339(self.seconds, self.nanos)
    }
}

/// A year has a 29th of February exactly if the year two thousand years
/// later has one.
pub proof fn leap_years_repeat(year: int)
    ensures
        is_leap_year(year + 2000) == is_leap_year(year),
{
}

/// Every day that the calendar has, in a year from which the century can
/// still be reached, moves into the century with its month and day: 23
/// becomes 2023, and the 29th of February of the year 0 that of 2000.
pub proof fn two_digit_years_move_into_the_century(date: CivilDate)
    requires
        date_exists(date.year as int, date.month as int, date.day as int),
        date.year + CENTURY <= MAX_YEAR,
    ensures
        in_century(date) == (CivilDate {
            year: (date.year + CENTURY) as i32,
            month: date.month,
            day: date.day,
        }),
        date_exists(date.year + CENTURY, date.month as int, date.day as int),
{
    leap_years_repeat(date.year as int);
}

/// The text of an instant, read as a decimal number with a comma for the
/// point, is the instant in seconds: behind the comma stand exactly nine
/// digits, which read as a number are the nanoseconds into the second; before
/// it stand the whole seconds, and before those a minus sign exactly if the
/// instant lies before the epoch. For an instant at or after the epoch the
/// two numbers are the instant's own.
pub proof fn unix_text_denotes_the_instant(at: AbsoluteTime)
    ensures
        ({
            let text = at.unix_text_spec();
            let total = at.total_nanos();
            let start: int = if total < 0 {
                1
            } else {
                0
            };
            let comma = text.len() - 10;
            &&& start < comma
            &&& text[comma] == ','
            &&& total < 0 ==> text[0] == '-'
            &&& forall|i: int| start <= i < text.len() && i != comma ==> is_digit(#[trigger] text[i])
            &&& number(text.subrange(start, comma)) * 1_000_000_000 + number(
                text.subrange(comma + 1, text.len() as int),
            ) == (if total < 0 {
                -total
            } else {
                total
            })
        }),
        at.wf() && at.seconds >= 0 ==> at.unix_text_spec() == decimal(at.seconds as nat) + seq![
            ',',
        ] + padded(at.nanos as nat, 10, 9),
{
    let total = at.total_nanos();
    let size = (if total < 0 {
        -total
    } else {
        total
    }) as nat;
    let sign = if total < 0 {
        seq!['-']
    } else {
        Seq::<char>::empty()
    };
    let whole = decimal(size / 1_000_000_000);
    let part = padded(size % 1_000_000_000, 10, 9);
    let text = at.unix_text_spec();
    reveal_with_fuel(pow10, 10);
    decimal_is_digits(size / 1_000_000_000);
    padded_is_digits(size % 1_000_000_000, 9);
    decimal_denotes(size / 1_000_000_000);
    padded_denotes(size % 1_000_000_000, 9);
    let start = sign.len() as int;
    let comma = start + whole.len();
    assert(text == sign + whole + seq![','] + part);
    assert(text.len() == comma + 10);
    assert forall|i: int| start <= i < text.len() && i != comma implies is_digit(
        #[trigger] text[i],
    ) by {
        if i < comma {
            assert(text[i] == whole[i - start]);
        } else {
            assert(text[i] == part[i - comma - 1]);
        }
    }
    assert(text.subrange(start, comma) =~= whole);
    assert(text.subrange(comma + 1, text.len() as int) =~= part);
}

} // verus!
