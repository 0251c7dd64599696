//! The client's reactive toggler: one dispatcher for everything that the bus
//! hands to the client.
//!
//! Property changes and heartbeats arrive on two streams; whichever is ready
//! first is handled first. A heartbeat is handled to its end (read the state,
//! call the opposite operation, hear the reply) before the next event is
//! taken from either stream, so no two toggles overlap.

use vstd::prelude::*;
use crate::payload::{deserialize_heartbeat, timestamp_of, SignalBody};
use crate::protocol::{
    opposite_operation, toggle_operation, ConnectionFault, DecodeError, Operation, OutOfTurn,
    RemoteCallError,
};

verus! {

/// Where the toggler stands.
#[derive(Clone, Copy, Debug, PartialEq, Eq)]
pub enum TogglerPhase {
    /// The subscriptions to both streams have been asked for.
    Subscribing,
    /// Waiting for the next item of either stream.
    Listening,
    /// A heartbeat arrived; the read of the remote state is under way.
    ReadingState,
    /// The state was read; the call of the operation is under way.
    Calling(Operation),
    /// Both streams have closed.
    Stopped,
    /// The heartbeat stream could not be subscribed to.
    Failed,
}

/// What the bus, or the remote service, hands to the toggler.
#[derive(Debug, PartialEq, Eq)]
pub enum Event {
    /// The subscriptions were made, or the one to the heartbeat failed.
    Subscribed(Result<(), ConnectionFault>),
    /// An item of the property-change stream, with the new value of `state`
    /// if it could be read.
    PropertyChanged(Result<String, DecodeError>),
    /// An item of the heartbeat stream, with its timestamp if the body held one.
    Heartbeat(Result<u64, DecodeError>),
    /// The reply to a read of the remote state.
    StateRead(Result<String, RemoteCallError>),
    /// The reply to `activate` or `deactivate`.
    CallReturned(Result<(), RemoteCallError>),
    /// Both streams have ended.
    Closed,
}

/// An [`Event`] with its strings as sequences of characters.
pub enum EventView {
    Subscribed(Result<(), ConnectionFault>),
    PropertyChanged(Result<Seq<char>, DecodeError>),
    Heartbeat(Result<u64, DecodeError>),
    StateRead(Result<Seq<char>, RemoteCallError>),
    CallReturned(Result<(), RemoteCallError>),
    Closed,
}

impl View for Event {
    type V = EventView;

    open spec fn view(&self) -> EventView {
        match *self {
            Event::Subscribed(result) => EventView::Subscribed(result),
            Event::PropertyChanged(Ok(value)) => EventView::PropertyChanged(Ok(value@)),
            Event::PropertyChanged(Err(error)) => EventView::PropertyChanged(Err(error)),
            Event::Heartbeat(decoded) => EventView::Heartbeat(decoded),
            Event::StateRead(Ok(state)) => EventView::StateRead(Ok(state@)),
            Event::StateRead(Err(error)) => EventView::StateRead(Err(error)),
            Event::CallReturned(result) => EventView::CallReturned(result),
            Event::Closed => EventView::Closed,
        }
    }
}

/// Why the client gives up.
#[derive(Clone, Copy, Debug, PartialEq, Eq)]
pub enum ClientError {
    /// The heartbeat stream could not be subscribed to.
    SubscribeFailed,
    /// Both streams closed: the session is over.
    ProgramEnded,
}

/// What the program does next on the toggler's behalf.
#[derive(Clone, Copy, Debug, PartialEq, Eq)]
pub enum Action {
    /// Wait for the next item of either stream and hand it over.
    AwaitEvent,
    /// Read the remote `state` property and hand over the reply.
    ReadState,
    /// Call the operation on the remote service and hand over the reply.
    Call(Operation),
    /// Leave the loop and report the error.
    End(ClientError),
}

/// What there is to tell the operator about the event just handled.
#[derive(Debug, PartialEq, Eq)]
pub enum Report {
    /// Nothing to tell.
    Nothing,
    /// The service's state was set to this value.
    StateChanged(String),
    /// A property change arrived whose value could not be read.
    PropertyUnreadable,
    /// A heartbeat with this timestamp arrived.
    Heartbeat(u64),
    /// A heartbeat arrived whose body held no timestamp; it was discarded.
    HeartbeatUnreadable,
    /// The remote state could not be read; the heartbeat was dropped.
    StateReadFailed,
    /// The remote state was read and this operation is being called.
    Toggling(Operation),
    /// The call of this operation failed.
    CallFailed(Operation),
}

/// A [`Report`] with its strings as sequences of characters.
pub enum ReportView {
    Nothing,
    StateChanged(Seq<char>),
    PropertyUnreadable,
    Heartbeat(u64),
    HeartbeatUnreadable,
    StateReadFailed,
    Toggling(Operation),
    CallFailed(Operation),
}

impl View for Report {
    type V = ReportView;

    open spec fn view(&self) -> ReportView {
        match *self {
            Report::Nothing => ReportView::Nothing,
            Report::StateChanged(value) => ReportView::StateChanged(value@),
            Report::PropertyUnreadable => ReportView::PropertyUnreadable,
            Report::Heartbeat(timestamp) => ReportView::Heartbeat(timestamp),
            Report::HeartbeatUnreadable => ReportView::HeartbeatUnreadable,
            Report::StateReadFailed => ReportView::StateReadFailed,
            Report::Toggling(op) => ReportView::Toggling(op),
            Report::CallFailed(op) => ReportView::CallFailed(op),
        }
    }
}

/// The toggler's answer to an event.
#[derive(Debug, PartialEq, Eq)]
pub struct Outcome {
    pub report: Report,
    pub action: Action,
}

/// A step of the toggler: the phase it enters, what it reports and what it
/// asks for.
pub struct Step {
    pub phase: TogglerPhase,
    pub report: ReportView,
    pub action: Action,
}

/// The toggler's rule: what follows from `event` in `phase`, or `None` where
/// the event cannot come in that phase.
pub open spec fn transition(phase: TogglerPhase, event: EventView) -> Option<Step> {
    match (phase, event) {
        (TogglerPhase::Subscribing, EventView::Subscribed(Ok(_))) => Some(
            Step {
                phase: TogglerPhase::Listening,
                report: ReportView::Nothing,
                action: Action::AwaitEvent,
            },
        ),
        (TogglerPhase::Subscribing, EventView::Subscribed(Err(_))) => Some(
            Step {
                phase: TogglerPhase::Failed,
                report: ReportView::Nothing,
                action: Action::End(ClientError::SubscribeFailed),
            },
        ),
        (TogglerPhase::Listening, EventView::PropertyChanged(Ok(value))) => Some(
            Step {
                phase: TogglerPhase::Listening,
                report: ReportView::StateChanged(value),
                action: Action::AwaitEvent,
            },
        ),
        (TogglerPhase::Listening, EventView::PropertyChanged(Err(_))) => Some(
            Step {
                phase: TogglerPhase::Listening,
                report: ReportView::PropertyUnreadable,
                action: Action::AwaitEvent,
            },
        ),
        (TogglerPhase::Listening, EventView::Heartbeat(Ok(timestamp))) => Some(
            Step {
                phase: TogglerPhase::ReadingState,
                report: ReportView::Heartbeat(timestamp),
                action: Action::ReadState,
            },
        ),
        (TogglerPhase::Listening, EventView::Heartbeat(Err(_))) => Some(
            Step {
                phase: TogglerPhase::Listening,
                report: ReportView::HeartbeatUnreadable,
                action: Action::AwaitEvent,
            },
        ),
        (TogglerPhase::Listening, EventView::Closed) => Some(
            Step {
                phase: TogglerPhase::Stopped,
                report: ReportView::Nothing,
                action: Action::End(ClientError::ProgramEnded),
            },
        ),
        (TogglerPhase::ReadingState, EventView::StateRead(Ok(state))) => Some(
            Step {
                phase: TogglerPhase::Calling(opposite_operation(state)),
                report: ReportView::Toggling(opposite_operation(state)),
                action: Action::Call(opposite_operation(state)),
            },
        ),
        (TogglerPhase::ReadingState, EventView::StateRead(Err(_))) => Some(
            Step {
                phase: TogglerPhase::Listening,
                report: ReportView::StateReadFailed,
                action: Action::AwaitEvent,
            },
        ),
        (TogglerPhase::Calling(_), EventView::CallReturned(Ok(_))) => Some(
            Step {
                phase: TogglerPhase::Listening,
                report: ReportView::Nothing,
                action: Action::AwaitEvent,
            },
        ),
        (TogglerPhase::Calling(op), EventView::CallReturned(Err(_))) => Some(
            Step {
                phase: TogglerPhase::Listening,
                report: ReportView::CallFailed(op),
                action: Action::AwaitEvent,
            },
        ),
        _ => None,
    }
}

/// The client's toggler.
#[derive(Clone, Copy, Debug, PartialEq, Eq)]
pub struct Toggler {
    pub phase: TogglerPhase,
}

impl Toggler {
    /// Whether `answer`, and the toggler `after`, are what the rule gives
    /// when `event` is handed to this toggler: the step that [`transition`]
    /// names, or `OutOfTurn` and a toggler that has not changed.
    pub open spec fn answers(
        self,
        event: EventView,
        after: Toggler,
        answer: Result<Outcome, OutOfTurn>,
    ) -> bool {
        match transition(self.phase, event) {
            Some(step) => {
                &&& after.phase == step.phase
                &&& answer matches Ok(outcome)
                &&& outcome.report@ == step.report
                &&& outcome.action == step.action
            },
            None => answer is Err && after == self,
        }
    }

    /// A toggler whose subscriptions have just been asked for.
    pub fn new() -> (toggler: Toggler)
        ensures
            toggler.phase == TogglerPhase::Subscribing,
    {
        Toggler { phase: TogglerPhase::Subscribing }
    }

    /// Handles one event, from whichever source it came. Where the event can
    /// come in the current phase, the toggler moves on as [`transition`] says
    /// and answers with the report and the next action; where it cannot, the
    /// toggler stays as it is and answers `OutOfTurn`.
    pub fn step(&mut self, event: Event) -> (answer: Result<Outcome, OutOfTurn>)
        ensures
            old(self).answers(event@, *final(self), answer),
    {
        match self.phase {
            TogglerPhase::Subscribing => match event {
                Event::Subscribed(Ok(_)) => {
                    self.phase = TogglerPhase::Listening;
                    Ok(Outcome { report: Report::Nothing, action: Action::AwaitEvent })
                },
                Event::Subscribed(Err(_)) => {
                    self.phase = TogglerPhase::Failed;
                    Ok(
                        Outcome {
                            report: Report::Nothing,
                            action: Action::End(ClientError::SubscribeFailed),
                        },
                    )
                },
                _ => Err(OutOfTurn),
            },
            TogglerPhase::Listening => match event {
                Event::PropertyChanged(changed) => Ok(handle_state_change(changed)),
                Event::Heartbeat(Ok(timestamp)) => {
                    self.phase = TogglerPhase::ReadingState;
                    Ok(Outcome { report: Report::Heartbeat(timestamp), action: Action::ReadState })
                },
                Event::Heartbeat(Err(_)) => Ok(
                    Outcome { report: Report::HeartbeatUnreadable, action: Action::AwaitEvent },
                ),
                Event::Closed => {
                    self.phase = TogglerPhase::Stopped;
                    Ok(
                        Outcome {
                            report: Report::Nothing,
                            action: Action::End(ClientError::ProgramEnded),
                        },
                    )
                },
                _ => Err(OutOfTurn),
            },
            TogglerPhase::ReadingState => match event {
                Event::StateRead(Ok(state)) => {
                    let op = toggle_operation(state.as_str());
                    self.phase = TogglerPhase::Calling(op);
                    Ok(Outcome { report: Report::Toggling(op), action: Action::Call(op) })
                },
                Event::StateRead(Err(_)) => {
                    self.phase = TogglerPhase::Listening;
                    Ok(Outcome { report: Report::StateReadFailed, action: Action::AwaitEvent })
                },
                _ => Err(OutOfTurn),
            },
            TogglerPhase::Calling(op) => match event {
                Event::CallReturned(Ok(_)) => {
                    self.phase = TogglerPhase::Listening;
                    Ok(Outcome { report: Report::Nothing, action: Action::AwaitEvent })
                },
                Event::CallReturned(Err(_)) => {
                    self.phase = TogglerPhase::Listening;
                    Ok(Outcome { report: Report::CallFailed(op), action: Action::AwaitEvent })
                },
                _ => Err(OutOfTurn),
            },
            TogglerPhase::Stopped => Err(OutOfTurn),
            TogglerPhase::Failed => Err(OutOfTurn),
        }
    }

    /// Handles an item of the heartbeat stream: reads the timestamp out of
    /// its body and hands the result to [`Toggler::step`].
    pub fn handle_heartbeat(&mut self, body: &SignalBody) -> (answer: Result<Outcome, OutOfTurn>)
        ensures
            old(self).answers(EventView::Heartbeat(timestamp_of(*body)), *final(self), answer),
    {
        let decoded = deserialize_heartbeat(body);
        self.step(Event::Heartbeat(decoded))
    }
}

/// Answers an item of the property-change stream: the new value is reported
/// and nothing else is done about it.
pub fn handle_state_change(changed: Result<String, DecodeError>) -> (outcome: Outcome)
    ensures
        outcome.action == Action::AwaitEvent,
        outcome.report@ == match changed {
            Ok(value) => ReportView::StateChanged(value@),
            Err(_) => ReportView::PropertyUnreadable,
        },
{
    match changed {
        Ok(value) => Outcome { report: Report::StateChanged(value), action: Action::AwaitEvent },
        Err(_) => Outcome { report: Report::PropertyUnreadable, action: Action::AwaitEvent },
    }
}

} // verus!
