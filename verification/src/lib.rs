//! Correlation of vehicle-bus frames with satellite-positioning fixes.
//!
//! A positioning receiver supplies a coarse absolute clock and a stream of
//! position sentences; a bus device supplies frames stamped by a free-running
//! monotonic clock. This library anchors the monotonic clock to the absolute
//! one, keeps the latest known position, and turns every frame into one
//! output record carrying a synthesized absolute timestamp.
//!
//! The library reads no device and writes no file. A caller reads lines and
//! frames, samples the monotonic clock, and hands them in:
//!
//! - [`clock::ClockReference::of_line`] makes the clock reference from the
//!   first line that carries a date and a time;
//! - [`position::PositionSnapshot::track`] takes every later line into the
//!   position;
//! - [`correlator::BusReader`] and [`correlator::Correlator`] decide what
//!   the two loops around the channel do next;
//! - [`record::correlate`] makes the record of one frame, and
//!   [`record::OutputRecord::cells`] its row.
//!
//! Positions are held as fixed-point decimals ([`fixed::Fixed`]), read from
//! the bits of the parser's binary numbers ([`binary`]); instants are whole
//! seconds and nanoseconds since the Unix epoch ([`calendar::AbsoluteTime`]).
//! The parser of sentences is the nmea crate and the calendar is chrono's;
//! both are called through a few small functions whose contracts are taken
//! on trust and say so.

pub mod binary;
pub mod calendar;
pub mod clock;
pub mod correlator;
pub mod fixed;
pub mod position;
pub mod record;
pub mod sentence;
pub mod text;
