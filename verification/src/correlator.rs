//! The two loops around the channel, as decisions.
//!
//! The bus reader and the correlator each wait on a device or a channel and
//! then decide what to do with what came. The waiting is the caller's; the
//! decisions are here, as steps from a state and an outcome to the next
//! state and an action.

use vstd::prelude::*;
use crate::clock::ClockReference;
use crate::position::PositionSnapshot;
use crate::record::{BusEvent, Frame, OutputRecord, OutputRecordView, correlate, correlated};

verus! {

/// What one wait on the channel ended with.
#[derive(Debug, PartialEq, Eq)]
pub enum Received {
    /// An event came.
    Event(BusEvent),
    /// The sending side is gone.
    Closed,
    /// The wait failed for another reason.
    Failed,
}

/// Why the correlator gave up.
#[derive(Clone, Copy, Debug, PartialEq, Eq, Structural)]
pub enum Failure {
    /// A wait on the channel failed.
    Receive,
    /// The absolute time of an event lies beyond what the calendar can write.
    TimeOutOfRange,
}

/// What the caller is to do after a step of the correlator.
#[derive(Debug, PartialEq, Eq)]
pub enum Action {
    /// Append this record to the log, flush, and wait again.
    Emit(OutputRecord),
    /// Leave the loop: there is nothing more to come.
    Finish,
    /// Report the failure and leave the loop.
    Fail(Failure),
}

/// The content of an [`Action`].
pub enum ActionView {
    Emit(OutputRecordView),
    Finish,
    Fail(Failure),
}

impl View for Action {
    type V = ActionView;

    open spec fn view(&self) -> ActionView {
        match self {
            Action::Emit(record) => ActionView::Emit(record@),
            Action::Finish => ActionView::Finish,
            Action::Fail(failure) => ActionView::Fail(*failure),
        }
    }
}

/// The consumer of bus events: it holds the clock reference and the name of
/// the bus interface, and runs until the channel ends or a step fails.
#[derive(Debug)]
pub struct Correlator {
    pub reference: ClockReference,
    pub interface: String,
    pub running: bool,
}

/// What a running correlator does with the outcome of a wait: an event
/// becomes a record to emit; the end of the channel ends the loop, and so
/// does a failure.
pub open spec fn action_for(
    reference: ClockReference,
    interface: Seq<char>,
    position: PositionSnapshot,
    received: Received,
) -> ActionView {
    match received {
        Received::Event(event) => match correlated(reference, position, interface, event) {
            Some(record) => ActionView::Emit(record),
            None => ActionView::Fail(Failure::TimeOutOfRange),
        },
        Received::Closed => ActionView::Finish,
        Received::Failed => ActionView::Fail(Failure::Receive),
    }
}

impl Correlator {
    /// What one step does, and whether the correlator runs on after it. A
    /// correlator that has stopped stays stopped and emits nothing.
    pub open spec fn step_spec(
        self,
        received: Received,
        position: PositionSnapshot,
    ) -> (ActionView, bool) {
        if self.running {
            let action = action_for(self.reference, self.interface@, position, received);
            (action, action is Emit)
        } else {
            (ActionView::Finish, false)
        }
    }

    /// A correlator that is ready for its first event.
    pub fn new(reference: ClockReference, interface: String) -> (correlator: Correlator)
        ensures
            correlator.reference == reference,
            correlator.interface@ == interface@,
            correlator.running,
    {
        Correlator { reference, interface, running: true }
    }

    /// Decides what follows one wait on the channel, given the position as
    /// it is known at that moment.
    pub fn step(&mut self, received: Received, position: &PositionSnapshot) -> (action: Action)
        requires
            received matches Received::Event(event) ==> event.frame.wf(),
        ensures
            action@ == old(self).step_spec(received, *position).0,
            final(self).running == old(self).step_spec(received, *position).1,
            final(self).reference == old(self).reference,
            final(self).interface@ == old(self).interface@,
            received is Closed ==> action is Finish && !final(self).running,
            !(received is Event) ==> !(action is Emit),
    {
        if !self.running {
            return Action::Finish;
        }
        let action = match received {
            Received::Event(event) => match correlate(
                &self.reference,
                position,
                self.interface.as_str(),
                &event,
            ) {
                Some(record) => Action::Emit(record),
                None => Action::Fail(Failure::TimeOutOfRange),
            },
            Received::Closed => Action::Finish,
            Received::Failed => Action::Fail(Failure::Receive),
        };
        self.running = match action {
            Action::Emit(_) => true,
            _ => false,
        };
        action
    }
}

/// When the channel is closed the correlator leaves its loop at that very
/// step, without a record, and every step after that ends the same way.
pub proof fn closed_channel_stops(
    correlator: Correlator,
    position: PositionSnapshot,
    later: Received,
    later_position: PositionSnapshot,
)
    ensures
        correlator.step_spec(Received::Closed, position).0 is Finish,
        !correlator.step_spec(Received::Closed, position).1,
        (Correlator { running: false, ..correlator }).step_spec(later, later_position) == (
            ActionView::Finish,
            false,
        ),
{
}

/// A record is emitted only for an event, and only whole: every step either
/// emits the record of the event it was given or emits nothing.
pub proof fn emits_only_whole_records(
    correlator: Correlator,
    received: Received,
    position: PositionSnapshot,
)
    ensures
        correlator.step_spec(received, position).0 matches ActionView::Emit(record) ==> (
        received matches Received::Event(event) && correlator.running && correlated(
            correlator.reference,
            position,
            correlator.interface@,
            event,
        ) == Some(record)),
{
}

/// What the caller is to do after an attempt of the bus reader to read a
/// frame.
#[derive(Debug, PartialEq, Eq)]
pub enum ReaderAction {
    /// Hand this event to the channel, then report whether it was delivered.
    Send(BusEvent),
    /// Nothing was read: try again at once.
    Retry,
    /// Leave the loop.
    Stop,
}

/// The producer of bus events: it runs until the consumer is gone.
#[derive(Clone, Copy, Debug, PartialEq, Eq, Structural)]
pub struct BusReader {
    pub running: bool,
}

impl BusReader {
    /// A reader that is ready for its first attempt.
    pub fn new() -> (reader: BusReader)
        ensures
            reader.running,
    {
        BusReader { running: true }
    }

    /// Decides what follows one attempt to read a frame. A frame is stamped
    /// with the reading of the monotonic clock taken right after it was
    /// read; an attempt that timed out or failed is passed over; a reader
    /// that has stopped reads no more.
    pub fn on_read(&self, read: Option<Frame>, sampled_at: u64) -> (action: ReaderAction)
        ensures
            !self.running ==> action is Stop,
            self.running && read.is_none() ==> action is Retry,
            self.running && read.is_some() ==> action == ReaderAction::Send(
                BusEvent { monotonic: sampled_at, frame: read.unwrap() },
            ),
    {
        if !self.running {
            ReaderAction::Stop
        } else {
            match read {
                Some(frame) => ReaderAction::Send(BusEvent { monotonic: sampled_at, frame }),
                None => ReaderAction::Retry,
            }
        }
    }

    /// Takes note of whether an event was delivered: once the consumer is
    /// gone the reader stops, and it never starts again.
    pub fn on_sent(&mut self, delivered: bool)
        ensures
            final(self).running == (old(self).running && delivered),
    {
        self.running = self.running && delivered;
    }
}

} // verus!
