//! The clock reference: one absolute instant tied to one reading of the
//! monotonic clock, from which every later reading gets its absolute time.

use vstd::prelude::*;
use crate::calendar::{AbsoluteTime, fix_instant, shifted};
use crate::sentence::{Fix, SentenceKind, classify, fix_of_line, kind_of};

verus! {

/// An absolute instant and the reading of the monotonic clock, in
/// nanoseconds, that was taken at that instant.
#[derive(Clone, Copy, Debug, PartialEq, Eq, Structural)]
pub struct ClockReference {
    pub absolute: AbsoluteTime,
    pub monotonic: u64,
}

/// The reference that a fix gives: the instant of its date and time, where
/// it has both and the calendar has the instant.
pub open spec fn reference_of_fix(fix: Fix, sampled_at: u64) -> Option<ClockReference> {
    match (fix.date, fix.time) {
        (Some(date), Some(time)) => match fix_instant(date, time) {
            Some(absolute) => Some(ClockReference { absolute, monotonic: sampled_at }),
            None => None,
        },
        _ => None,
    }
}

/// The reference that a line gives: that of its fix, where the line is
/// navigation data that the parser accepts.
pub open spec fn reference_of_line(line: Seq<char>, sampled_at: u64) -> Option<ClockReference> {
    if kind_of(line) == SentenceKind::RecommendedMinimum {
        match fix_of_line(line) {
            Some(fix) => reference_of_fix(fix, sampled_at),
            None => None,
        }
    } else {
        None
    }
}

impl ClockReference {
    /// The absolute time of a reading of the monotonic clock: the reference
    /// instant, moved by the time that passed between the two readings.
    pub open spec fn time_at(self, monotonic: u64) -> Option<AbsoluteTime> {
        shifted(self.absolute, monotonic as int - self.monotonic as int)
    }

    /// Makes the reference from a fix and the reading of the monotonic clock
    /// taken when its line arrived.
    pub fn of_fix(fix: &Fix, sampled_at: u64) -> (r: Option<ClockReference>)
        ensures
            r == reference_of_fix(*fix, sampled_at),
            r matches Some(reference) ==> reference.monotonic == sampled_at
                && reference.absolute.wf(),
    {
        match (fix.date, fix.time) {
            (Some(date), Some(time)) => match AbsoluteTime::of_fix(date, time) {
                Some(absolute) => Some(ClockReference { absolute, monotonic: sampled_at }),
                None => None,
            },
            _ => None,
        }
    }

    /// Tries to make the reference from one line of the receiver, read at
    /// `sampled_at` on the monotonic clock. Only navigation data that the
    /// parser accepts, with a date and a time, gives one; on any other line
    /// the caller reads on.
    pub fn of_line(line: &str, sampled_at: u64) -> (r: Option<ClockReference>)
        ensures
            r == reference_of_line(line@, sampled_at),
            r matches Some(reference) ==> reference.monotonic == sampled_at,
            kind_of(line@) != SentenceKind::RecommendedMinimum ==> r.is_none(),
    {
        match classify(line) {
            SentenceKind::RecommendedMinimum => match Fix::read(line) {
                Some(fix) => ClockReference::of_fix(&fix, sampled_at),
                None => None,
            },
            _ => None,
        }
    }

    /// The absolute time of a reading of the monotonic clock, taken before or
    /// after the reference; nothing where its seconds do not fit.
    pub fn absolute_at(&self, monotonic: u64) -> (r: Option<AbsoluteTime>)
        ensures
            r == self.time_at(monotonic),
            r matches Some(t) ==> t.wf() && t.total_nanos() == self.absolute.total_nanos() + (
            monotonic - self.monotonic),
    {
        self.absolute.advanced(monotonic, self.monotonic)
    }
}

} // verus!
