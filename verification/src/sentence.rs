//! Positioning sentences: which kind a line is, and what it reports.
//!
//! Reading a sentence is the work of the nmea crate. This module decides by
//! the line's prefix whether to ask it, and turns what it reports into the
//! library's own values.

use vstd::prelude::*;
use chrono::{Datelike, Timelike};
use crate::calendar::{CivilDate, TimeOfDay};
use crate::binary::{double_value, single_value};
use crate::fixed::Fixed;

verus! {

/// The kinds of sentence that are told apart.
#[derive(Clone, Copy, Debug, PartialEq, Eq, Structural)]
pub enum SentenceKind {
    /// Recommended minimum navigation data: date, time, position and speed.
    RecommendedMinimum,
    /// Fix data: time, position and altitude.
    FixData,
    /// Anything else.
    Other,
}

/// What the parser reports of one sentence: date and time as numbers, each
/// measured value as the bits of the binary number that the parser holds,
/// sixty-four for longitude and latitude and thirty-two for altitude and
/// speed.
#[derive(Clone, Copy, Debug, PartialEq, Eq, Structural)]
pub struct RawSentence {
    pub date: Option<CivilDate>,
    pub time: Option<TimeOfDay>,
    pub longitude: Option<u64>,
    pub latitude: Option<u64>,
    pub altitude: Option<u32>,
    pub speed_knots: Option<u32>,
}

/// What one sentence reports, as values: degrees, metres, knots.
#[derive(Clone, Copy, Debug, PartialEq, Eq, Structural)]
pub struct Fix {
    pub date: Option<CivilDate>,
    pub time: Option<TimeOfDay>,
    pub longitude: Option<Fixed>,
    pub latitude: Option<Fixed>,
    pub altitude: Option<Fixed>,
    pub speed_knots: Option<Fixed>,
}

/// What the parser reports of a line, starting afresh on each: nothing where
/// it rejects the line.
pub uninterp spec fn sentence_fields(line: Seq<char>) -> Option<RawSentence>;

/// The prefix of recommended minimum navigation data.
pub open spec fn rmc_prefix() -> Seq<char> {
    seq!['$', 'G', 'P', 'R', 'M', 'C']
}

/// The prefix of fix data.
pub open spec fn gga_prefix() -> Seq<char> {
    seq!['$', 'G', 'P', 'G', 'G', 'A']
}

/// The kind of a line, by its prefix.
pub open spec fn kind_of(line: Seq<char>) -> SentenceKind {
    if rmc_prefix().is_prefix_of(line) {
        SentenceKind::RecommendedMinimum
    } else if gga_prefix().is_prefix_of(line) {
        SentenceKind::FixData
    } else {
        SentenceKind::Other
    }
}

/// The value of a binary64 number that may be absent.
pub open spec fn double_of(bits: Option<u64>) -> Option<Fixed> {
    match bits {
        Some(b) => double_value(b),
        None => None,
    }
}

/// The value of a binary32 number that may be absent.
pub open spec fn single_of(bits: Option<u32>) -> Option<Fixed> {
    match bits {
        Some(b) => single_value(b),
        None => None,
    }
}

/// The values of what the parser reported: each number to the nearest
/// hundred-millionth; one that is not finite, or too large, counts as absent.
///
/// Two things are lost on the way. A negative number nearer to zero than
/// half a unit, and a negative zero, become zero and have no sign any more.
/// And altitude and speed, which a record shows with two places, are rounded
/// twice, here and when they are written: for a number next to a tie of the
/// second place, the text can differ by one in its last place from the
/// binary number rounded once.
pub open spec fn fix_of(raw: RawSentence) -> Fix {
    Fix {
        date: raw.date,
        time: raw.time,
        longitude: double_of(raw.longitude),
        latitude: double_of(raw.latitude),
        altitude: single_of(raw.altitude),
        speed_knots: single_of(raw.speed_knots),
    }
}

/// What a line reports: nothing where it is of no known kind or the parser
/// rejects it.
pub open spec fn fix_of_line(line: Seq<char>) -> Option<Fix> {
    if kind_of(line) == SentenceKind::Other {
        None
    } else {
        match sentence_fields(line) {
            Some(raw) => Some(fix_of(raw)),
            None => None,
        }
    }
}

/// `Nmea::parse` on a parser made by `Nmea::new`. The parser is asked only
/// about lines of the two kinds. The fields it leaves behind are its own,
/// under the name `sentence_fields`: date and time by their numbers, each
/// measured value by the bits that `to_bits` gives.
#[verifier::external_body]
fn parse_sentence(line: &str) -> (r: Option<RawSentence>)
    requires
        kind_of(line@) != SentenceKind::Other,
    ensures
        r == sentence_fields(line@),
{
    let mut parser = nmea::Nmea::new();
    parser.parse(line).ok()?;
    Some(RawSentence {
        date: parser.fix_date.map(|d| CivilDate::new(d.year(), d.month(), d.day())),
        time: parser
            .fix_time
            .map(|t| TimeOfDay::new(t.hour(), t.minute(), t.second(), t.nanosecond())),
        longitude: parser.longitude().map(|v| v.to_bits()),
        latitude: parser.latitude().map(|v| v.to_bits()),
        altitude: parser.altitude().map(|v| v.to_bits()),
        speed_knots: parser.speed_over_ground.map(|v| v.to_bits()),
    })
}

/// Whether `line` begins with `prefix`.
pub fn starts_with(line: &str, prefix: &str) -> (r: bool)
    ensures
        r == prefix@.is_prefix_of(line@),
{
    let n: usize = prefix.unicode_len();
    let m: usize = line.unicode_len();
    if n > m {
        return false;
    }
    let mut i: usize = 0;
    while i < n
        invariant
            i <= n <= m,
            n == prefix@.len(),
            m == line@.len(),
            forall|j: int| 0 <= j < i ==> prefix@[j] == line@[j],
        decreases n - i,
    {
        if prefix.get_char(i) != line.get_char(i) {
            assert(line@.subrange(0, n as int)[i as int] != prefix@[i as int]);
            return false;
        }
        i += 1;
    }
    assert(prefix@ =~= line@.subrange(0, n as int));
    true
}

/// Tells the kind of a line by its prefix.
pub fn classify(line: &str) -> (kind: SentenceKind)
    ensures
        kind == kind_of(line@),
{
    proof {
        reveal_strlit("$GPRMC");
        reveal_strlit("$GPGGA");
        assert("$GPRMC"@ =~= rmc_prefix());
        assert("$GPGGA"@ =~= gga_prefix());
    }
    if starts_with(line, "$GPRMC") {
        SentenceKind::RecommendedMinimum
    } else if starts_with(line, "$GPGGA") {
        SentenceKind::FixData
    } else {
        SentenceKind::Other
    }
}

/// Reads a binary64 number that may be absent.
fn read_double(bits: Option<u64>) -> (value: Option<Fixed>)
    ensures
        value == double_of(bits),
{
    match bits {
        Some(b) => Fixed::from_double_bits(b),
        None => None,
    }
}

/// Reads a binary32 number that may be absent.
fn read_single(bits: Option<u32>) -> (value: Option<Fixed>)
    ensures
        value == single_of(bits),
{
    match bits {
        Some(b) => Fixed::from_single_bits(b),
        None => None,
    }
}

impl Fix {
    /// Turns what the parser reported into values.
    pub fn from_raw(raw: &RawSentence) -> (fix: Fix)
        ensures
            fix == fix_of(*raw),
    {
        Fix {
            date: raw.date,
            time: raw.time,
            longitude: read_double(raw.longitude),
            latitude: read_double(raw.latitude),
            altitude: read_single(raw.altitude),
            speed_knots: read_single(raw.speed_knots),
        }
    }

    /// Reads a line: a line of one of the two kinds is handed to the parser,
    /// any other is passed over.
    pub fn read(line: &str) -> (r: Option<Fix>)
        ensures
            r == fix_of_line(line@),
    {
        match classify(line) {
            SentenceKind::Other => None,
            _ => match parse_sentence(line) {
                Some(raw) => Some(Fix::from_raw(&raw)),
                None => None,
            },
        }
    }
}

} // verus!
