//! The latest known position: four values that come and go independently.

use vstd::prelude::*;
use crate::fixed::Fixed;
use crate::sentence::{Fix, SentenceKind, classify, fix_of_line, kind_of, sentence_fields};

verus! {

/// Longitude and latitude in degrees, altitude in metres, ground speed in
/// metres per second: each either not yet known or the last value reported.
#[derive(Clone, Copy, Debug, PartialEq, Eq, Structural)]
pub struct PositionSnapshot {
    pub longitude: Option<Fixed>,
    pub latitude: Option<Fixed>,
    pub altitude: Option<Fixed>,
    pub speed: Option<Fixed>,
}

/// A speed that may be absent, from knots to metres per second.
pub open spec fn speed_of(knots: Option<Fixed>) -> Option<Fixed> {
    match knots {
        Some(k) => Some(k.as_mps()),
        None => None,
    }
}

/// The snapshot after a sentence of the given kind has been read.
///
/// Navigation data that the parser accepted overwrites longitude, latitude
/// and speed with what it reported, absent values included; accepted fix data
/// overwrites the altitude. A sentence that was rejected, or of another
/// kind, changes nothing.
pub open spec fn absorbed(
    before: PositionSnapshot,
    kind: SentenceKind,
    fix: Option<Fix>,
) -> PositionSnapshot {
    match (kind, fix) {
        (SentenceKind::RecommendedMinimum, Some(f)) => PositionSnapshot {
            longitude: f.longitude,
            latitude: f.latitude,
            altitude: before.altitude,
            speed: speed_of(f.speed_knots),
        },
        (SentenceKind::FixData, Some(f)) => PositionSnapshot {
            longitude: before.longitude,
            latitude: before.latitude,
            altitude: f.altitude,
            speed: before.speed,
        },
        _ => before,
    }
}

/// The snapshot after a line has been read.
pub open spec fn after_line(before: PositionSnapshot, line: Seq<char>) -> PositionSnapshot {
    absorbed(before, kind_of(line), fix_of_line(line))
}

/// The snapshot after each line of a sequence has been read in turn.
pub open spec fn after_lines(before: PositionSnapshot, lines: Seq<Seq<char>>) -> PositionSnapshot
    decreases lines.len(),
{
    if lines.len() == 0 {
        before
    } else {
        after_line(after_lines(before, lines.drop_last()), lines.last())
    }
}

impl PositionSnapshot {
    /// The snapshot in which nothing is known yet.
    pub fn new() -> (snapshot: PositionSnapshot)
        ensures
            snapshot == (PositionSnapshot {
                longitude: None,
                latitude: None,
                altitude: None,
                speed: None,
            }),
    {
        PositionSnapshot { longitude: None, latitude: None, altitude: None, speed: None }
    }

    /// Takes in what one sentence of the given kind reported, or that it was
    /// rejected.
    pub fn absorb(&mut self, kind: SentenceKind, fix: Option<Fix>)
        ensures
            *final(self) == absorbed(*old(self), kind, fix),
    {
        match (kind, fix) {
            (SentenceKind::RecommendedMinimum, Some(f)) => {
                self.longitude = f.longitude;
                self.latitude = f.latitude;
                self.speed = match f.speed_knots {
                    Some(k) => Some(k.knots_to_mps()),
                    None => None,
                };
            },
            (SentenceKind::FixData, Some(f)) => {
                self.altitude = f.altitude;
            },
            _ => {},
        }
    }

    /// Reads one line from the receiver and takes in what it reports.
    ///
    /// Fix data never touches longitude, latitude or speed, and navigation
    /// data never touches the altitude; a line that the parser rejects, or of
    /// another kind, changes nothing.
    pub fn track(&mut self, line: &str)
        ensures
            *final(self) == after_line(*old(self), line@),
            kind_of(line@) == SentenceKind::FixData ==> final(self).longitude == old(self).longitude
                && final(self).latitude == old(self).latitude && final(self).speed == old(
                self,
            ).speed,
            kind_of(line@) == SentenceKind::RecommendedMinimum ==> final(self).altitude == old(
                self,
            ).altitude,
            fix_of_line(line@).is_none() ==> *final(self) == *old(self),
    {
        let kind = classify(line);
        let fix = Fix::read(line);
        self.absorb(kind, fix);
    }
}

/// Fix data, whether the parser accepts it or not, leaves longitude,
/// latitude and speed as they were; fix data that it rejects leaves the
/// altitude too.
pub proof fn fix_data_keeps_navigation(before: PositionSnapshot, line: Seq<char>)
    requires
        kind_of(line) == SentenceKind::FixData,
    ensures
        after_line(before, line).longitude == before.longitude,
        after_line(before, line).latitude == before.latitude,
        after_line(before, line).speed == before.speed,
        sentence_fields(line).is_none() ==> after_line(before, line) == before,
{
}

/// Navigation data that the parser rejects leaves every field as it was, and
/// navigation data that it accepts leaves the altitude.
pub proof fn navigation_keeps_altitude(before: PositionSnapshot, line: Seq<char>)
    requires
        kind_of(line) == SentenceKind::RecommendedMinimum,
    ensures
        after_line(before, line).altitude == before.altitude,
        sentence_fields(line).is_none() ==> after_line(before, line) == before,
{
}

} // verus!
