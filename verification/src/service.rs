//! The service object: one state, set by `activate` and `deactivate`.

use vstd::prelude::*;
use crate::protocol::{target_state, ConnectionFault, Operation, RemoteCallError, ACTIVE, IDLE};

verus! {

/// Tells subscribers the value that the `state` property was set to. One is
/// due for every `activate` and `deactivate`, whether or not the value changed.
#[derive(Debug, PartialEq, Eq)]
pub struct PropertyChangeNotification {
    pub value: String,
}

/// What the service does when `op` is called on it while its state reads
/// `state`: the state it takes, and the value it notifies. The state before
/// the call plays no part.
pub open spec fn performed(state: Seq<char>, op: Operation) -> (Seq<char>, Seq<char>) {
    (target_state(op), target_state(op))
}

/// The service after the calls `ops`, made one after the other from the state
/// `state`: its last state, and the values it notified, oldest first.
pub open spec fn served(state: Seq<char>, ops: Seq<Operation>) -> (Seq<char>, Seq<Seq<char>>)
    decreases ops.len(),
{
    if ops.len() == 0 {
        (state, Seq::empty())
    } else {
        let (first_state, first_value) = performed(state, ops.first());
        let (last_state, later_values) = served(first_state, ops.drop_first());
        (last_state, seq![first_value] + later_values)
    }
}

/// The service object.
#[derive(Debug, PartialEq, Eq)]
pub struct Test1 {
    pub state: String,
}

impl Test1 {
    /// The state is one of the two names the protocol knows.
    pub open spec fn well_formed(&self) -> bool {
        self.state@ == ACTIVE@ || self.state@ == IDLE@
    }

    /// A service as it starts: idle.
    pub fn new() -> (service: Test1)
        ensures
            service.state@ == IDLE@,
            service.well_formed(),
    {
        Test1 { state: IDLE.to_owned() }
    }

    /// Sets the state to `active`, whatever it was, and returns the
    /// notification to emit. The state is set before the notification is
    /// made, and it stands even if emitting the notification fails.
    pub fn activate(&mut self) -> (notification: PropertyChangeNotification)
        ensures
            (final(self).state@, notification.value@) == performed(
                old(self).state@,
                Operation::Activate,
            ),
            final(self).well_formed(),
    {
        self.state = ACTIVE.to_owned();
        PropertyChangeNotification { value: ACTIVE.to_owned() }
    }

    /// Sets the state to `idle`, whatever it was, and returns the
    /// notification to emit. The state is set before the notification is
    /// made, and it stands even if emitting the notification fails.
    pub fn deactivate(&mut self) -> (notification: PropertyChangeNotification)
        ensures
            (final(self).state@, notification.value@) == performed(
                old(self).state@,
                Operation::Deactivate,
            ),
            final(self).well_formed(),
    {
        self.state = IDLE.to_owned();
        PropertyChangeNotification { value: IDLE.to_owned() }
    }

    /// What `activate` and `deactivate` return to their caller once the
    /// notification has been handed to the bus: the call fails if the
    /// notification could not be emitted, and only then. The state that the
    /// operation set stands either way.
    pub fn completed(emitted: Result<(), ConnectionFault>) -> (reply: Result<(), RemoteCallError>)
        ensures
            reply == match emitted {
                Ok(_) => Ok::<(), RemoteCallError>(()),
                Err(_) => Err::<(), RemoteCallError>(RemoteCallError),
            },
    {
        match emitted {
            Ok(_) => Ok(()),
            Err(_) => Err(RemoteCallError),
        }
    }

    /// The current state, as the `state` property reads.
    pub fn state(&self) -> (name: &str)
        ensures
            name@ == self.state@,
    {
        self.state.as_str()
    }
}

} // verus!
