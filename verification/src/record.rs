//! Bus events and the records made of them.

use vstd::prelude::*;
use crate::calendar::{AbsoluteTime, rfc3339_text};
use crate::clock::ClockReference;
use crate::fixed::{Fixed, rendered, rendered_has_fixed_places};
use crate::position::{PositionSnapshot, after_lines};
use crate::text::{decimal, hex_id, hex_id_text, hex_payload, payload_text, push_decimal, text_of};

verus! {

/// Decimal places of longitude and latitude in a record.
pub const COORDINATE_PLACES: u8 = 8;

/// Decimal places of altitude and speed in a record.
pub const MEASURE_PLACES: u8 = 2;

/// The longest payload whose length a record can hold.
pub const MAX_PAYLOAD: usize = 255;

/// One frame from the bus: its identifier and its payload.
#[derive(Clone, Debug, PartialEq, Eq)]
pub struct Frame {
    pub id: u32,
    pub data: Vec<u8>,
}

/// A frame and the reading of the monotonic clock taken when it arrived, in
/// nanoseconds.
#[derive(Clone, Debug, PartialEq, Eq)]
pub struct BusEvent {
    pub monotonic: u64,
    pub frame: Frame,
}

/// One row of the log: a frame with its absolute time and the position known
/// when it was correlated.
#[derive(Clone, Debug, PartialEq, Eq)]
pub struct OutputRecord {
    pub timestamp: String,
    pub unix_timestamp: String,
    pub interface: String,
    pub can_id: String,
    pub dlc: u8,
    pub data: String,
    pub longitude: Option<String>,
    pub latitude: Option<String>,
    pub altitude: Option<String>,
    pub speed: Option<String>,
}

/// The content of an [`OutputRecord`].
pub struct OutputRecordView {
    pub timestamp: Seq<char>,
    pub unix_timestamp: Seq<char>,
    pub interface: Seq<char>,
    pub can_id: Seq<char>,
    pub dlc: u8,
    pub data: Seq<char>,
    pub longitude: Option<Seq<char>>,
    pub latitude: Option<Seq<char>>,
    pub altitude: Option<Seq<char>>,
    pub speed: Option<Seq<char>>,
}

impl View for OutputRecord {
    type V = OutputRecordView;

    open spec fn view(&self) -> OutputRecordView {
        OutputRecordView {
            timestamp: self.timestamp@,
            unix_timestamp: self.unix_timestamp@,
            interface: self.interface@,
            can_id: self.can_id@,
            dlc: self.dlc,
            data: self.data@,
            longitude: text_of(self.longitude),
            latitude: text_of(self.latitude),
            altitude: text_of(self.altitude),
            speed: text_of(self.speed),
        }
    }
}

/// The text of a value that may be unknown: nothing for an unknown value,
/// and for a known one its digits with `places` of them behind a comma.
pub open spec fn value_text(value: Option<Fixed>, places: nat) -> Option<Seq<char>> {
    match value {
        Some(v) => Some(rendered(v.units as int, places)),
        None => None,
    }
}

/// The record of a frame that arrived at the instant `at`, whose calendar
/// text is `calendar`, while `position` was the position known.
pub open spec fn record_of(
    calendar: Seq<char>,
    at: AbsoluteTime,
    interface: Seq<char>,
    frame: Frame,
    position: PositionSnapshot,
) -> OutputRecordView {
    OutputRecordView {
        timestamp: calendar,
        unix_timestamp: at.unix_text_spec(),
        interface,
        can_id: hex_id_text(frame.id),
        dlc: frame.data@.len() as u8,
        data: payload_text(frame.data@),
        longitude: value_text(position.longitude, 8),
        latitude: value_text(position.latitude, 8),
        altitude: value_text(position.altitude, 2),
        speed: value_text(position.speed, 2),
    }
}

/// The record of a bus event: its frame, stamped with the absolute time of
/// its arrival, beside the position. There is none where that time lies
/// beyond what the calendar can write.
pub open spec fn correlated(
    reference: ClockReference,
    position: PositionSnapshot,
    interface: Seq<char>,
    event: BusEvent,
) -> Option<OutputRecordView> {
    match reference.time_at(event.monotonic) {
        Some(at) => match rfc3339_text(at.seconds as int, at.nanos as int) {
            Some(calendar) => Some(record_of(calendar, at, interface, event.frame, position)),
            None => None,
        },
        None => None,
    }
}

/// The cell of a value that may be unknown: empty for an unknown value.
pub open spec fn position_cell(value: Option<Fixed>, places: nat) -> Seq<char> {
    match value {
        Some(v) => rendered(v.units as int, places),
        None => Seq::empty(),
    }
}

/// The cell of a text that may be absent: empty where it is.
pub open spec fn cell_of(text: Option<Seq<char>>) -> Seq<char> {
    match text {
        Some(t) => t,
        None => Seq::empty(),
    }
}

/// The ten cells of a record's row, in the order of the columns.
pub open spec fn cells_of(record: OutputRecordView) -> Seq<Seq<char>> {
    seq![
        record.timestamp,
        record.unix_timestamp,
        record.interface,
        record.can_id,
        decimal(record.dlc as nat),
        record.data,
        cell_of(record.longitude),
        cell_of(record.latitude),
        cell_of(record.altitude),
        cell_of(record.speed),
    ]
}

/// Writes a value that may be unknown.
fn value_to_text(value: Option<Fixed>, places: u8) -> (text: Option<String>)
    requires
        1 <= places <= 8,
    ensures
        text_of(text) == value_text(value, places as nat),
{
    match value {
        Some(v) => Some(v.render(places)),
        None => None,
    }
}

/// Copies a text that may be absent into a cell.
fn cell(text: &Option<String>) -> (c: String)
    ensures
        c@ == cell_of(text_of(*text)),
{
    match text {
        Some(t) => t.clone(),
        None => String::new(),
    }
}

impl Frame {
    /// Whether the payload is short enough for its length to be recorded.
    pub open spec fn wf(&self) -> bool {
        self.data@.len() <= MAX_PAYLOAD
    }

    /// Makes a frame, unless the payload is too long.
    pub fn new(id: u32, data: Vec<u8>) -> (frame: Option<Frame>)
        ensures
            frame.is_some() == (data@.len() <= MAX_PAYLOAD),
            frame matches Some(f) ==> f.id == id && f.data@ == data@ && f.wf(),
    {
        if data.len() <= MAX_PAYLOAD {
            Some(Frame { id, data })
        } else {
            None
        }
    }
}

impl OutputRecord {
    /// Puts a record together from the instant of a frame's arrival, the
    /// calendar text of that instant, the frame and the position.
    pub fn assemble(
        calendar: String,
        at: &AbsoluteTime,
        interface: &str,
        frame: &Frame,
        position: &PositionSnapshot,
    ) -> (record: OutputRecord)
        requires
            frame.wf(),
        ensures
            record@ == record_of(calendar@, *at, interface@, *frame, *position),
    {
        OutputRecord {
            timestamp: calendar,
            unix_timestamp: at.unix_text(),
            interface: String::from_str(interface),
            can_id: hex_id(frame.id),
            dlc: frame.data.len() as u8,
            data: hex_payload(frame.data.as_slice()),
            longitude: value_to_text(position.longitude, COORDINATE_PLACES),
            latitude: value_to_text(position.latitude, COORDINATE_PLACES),
            altitude: value_to_text(position.altitude, MEASURE_PLACES),
            speed: value_to_text(position.speed, MEASURE_PLACES),
        }
    }

    /// The ten cells of the record's row, in the order of the columns: a
    /// value that was unknown gives an empty cell.
    pub fn cells(&self) -> (cells: Vec<String>)
        ensures
            cells@.len() == 10,
            forall|i: int| 0 <= i < 10 ==> (#[trigger] cells@[i])@ == cells_of(self@)[i],
    {
        let mut length = String::new();
        push_decimal(&mut length, self.dlc as u64);
        let mut cells: Vec<String> = Vec::new();
        cells.push(self.timestamp.clone());
        cells.push(self.unix_timestamp.clone());
        cells.push(self.interface.clone());
        cells.push(self.can_id.clone());
        cells.push(length);
        cells.push(self.data.clone());
        cells.push(cell(&self.longitude));
        cells.push(cell(&self.latitude));
        cells.push(cell(&self.altitude));
        cells.push(cell(&self.speed));
        cells
    }
}

/// The names of the ten columns, in order.
pub fn column_names() -> (names: Vec<&'static str>)
    ensures
        names@.len() == 10,
        names@[0]@ == "Timestamp"@,
        names@[1]@ == "Unix-Timestamp"@,
        names@[2]@ == "CAN-Interface"@,
        names@[3]@ == "CAN-ID"@,
        names@[4]@ == "DLC"@,
        names@[5]@ == "Data"@,
        names@[6]@ == "Longitude"@,
        names@[7]@ == "Latitude"@,
        names@[8]@ == "Altitude (m)"@,
        names@[9]@ == "Speed (m/s)"@,
{
    let mut names: Vec<&'static str> = Vec::new();
    names.push("Timestamp");
    names.push("Unix-Timestamp");
    names.push("CAN-Interface");
    names.push("CAN-ID");
    names.push("DLC");
    names.push("Data");
    names.push("Longitude");
    names.push("Latitude");
    names.push("Altitude (m)");
    names.push("Speed (m/s)");
    names
}

/// Makes the record of one bus event: the frame, the absolute time of its
/// arrival by the clock reference, and the position as it is known now.
pub fn correlate(
    reference: &ClockReference,
    position: &PositionSnapshot,
    interface: &str,
    event: &BusEvent,
) -> (r: Option<OutputRecord>)
    requires
        event.frame.wf(),
    ensures
        r.is_some() == correlated(*reference, *position, interface@, *event).is_some(),
        r matches Some(record) ==> correlated(*reference, *position, interface@, *event) == Some(
            record@,
        ),
        r matches Some(record) ==> reference.time_at(event.monotonic) matches Some(at)
            && record@.unix_timestamp == at.unix_text_spec() && at.total_nanos()
            == reference.absolute.total_nanos() + (event.monotonic - reference.monotonic),
{
    match reference.absolute_at(event.monotonic) {
        Some(at) => match at.calendar_text() {
            Some(calendar) => Some(
                OutputRecord::assemble(calendar, &at, interface, &event.frame, position),
            ),
            None => None,
        },
        None => None,
    }
}

/// The calendar text of a record that may be absent.
pub open spec fn timestamp_of(record: Option<OutputRecordView>) -> Option<Seq<char>> {
    match record {
        Some(r) => Some(r.timestamp),
        None => None,
    }
}

/// The time stamped on an event does not depend on the position: whatever
/// lines the receiver has sent, the record carries the reference instant
/// moved by the time between the two readings of the monotonic clock, and
/// there is a record after those lines exactly if there is one before them.
pub proof fn timestamp_ignores_position(
    reference: ClockReference,
    interface: Seq<char>,
    event: BusEvent,
    before: PositionSnapshot,
    lines: Seq<Seq<char>>,
)
    ensures
        correlated(reference, after_lines(before, lines), interface, event).is_some()
            == correlated(reference, before, interface, event).is_some(),
        timestamp_of(correlated(reference, after_lines(before, lines), interface, event))
            == timestamp_of(correlated(reference, before, interface, event)),
        correlated(reference, after_lines(before, lines), interface, event) matches Some(record)
            ==> reference.time_at(event.monotonic) matches Some(at) && at.total_nanos()
            == reference.absolute.total_nanos() + (event.monotonic - reference.monotonic)
            && record.unix_timestamp == at.unix_text_spec() && Some(record.timestamp)
            == rfc3339_text(at.seconds as int, at.nanos as int),
{
}

/// In the row of a record, the cell of a value that was unknown is empty,
/// and the cell of a known value is that value with eight places for
/// longitude and latitude and two for altitude and speed, which is never
/// empty.
pub proof fn unknown_values_give_empty_cells(
    calendar: Seq<char>,
    at: AbsoluteTime,
    interface: Seq<char>,
    frame: Frame,
    position: PositionSnapshot,
)
    ensures
        ({
            let cells = cells_of(record_of(calendar, at, interface, frame, position));
            &&& cells.len() == 10
            &&& cells[6] == position_cell(position.longitude, 8)
            &&& cells[7] == position_cell(position.latitude, 8)
            &&& cells[8] == position_cell(position.altitude, 2)
            &&& cells[9] == position_cell(position.speed, 2)
            &&& (cells[6].len() == 0) == position.longitude.is_none()
            &&& (cells[7].len() == 0) == position.latitude.is_none()
            &&& (cells[8].len() == 0) == position.altitude.is_none()
            &&& (cells[9].len() == 0) == position.speed.is_none()
        }),
{
    if let Some(v) = position.longitude {
        rendered_has_fixed_places(v.units as int, 8);
    }
    if let Some(v) = position.latitude {
        rendered_has_fixed_places(v.units as int, 8);
    }
    if let Some(v) = position.altitude {
        rendered_has_fixed_places(v.units as int, 2);
    }
    if let Some(v) = position.speed {
        rendered_has_fixed_places(v.units as int, 2);
    }
}

} // verus!
