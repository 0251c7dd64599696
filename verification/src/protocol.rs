//! What both peers agree on: the state names, the two operations, the
//! intervals, and the faults a session can meet.

use vstd::prelude::*;
use crate::text::same_text;

verus! {

/// The name the service gives its state after `activate`.
pub const ACTIVE: &'static str = "active";

/// The name the service gives its state after `deactivate`, and at start.
pub const IDLE: &'static str = "idle";

/// Seconds between two heartbeats.
pub const HEARTBEAT_INTERVAL_SECS: u64 = 5;

/// Seconds between two looks at the bus's name registry during discovery.
pub const DISCOVERY_INTERVAL_SECS: u64 = 1;

/// A remote operation of the service.
#[derive(Clone, Copy, Debug, PartialEq, Eq)]
pub enum Operation {
    Activate,
    Deactivate,
}

/// The bus could not be reached, or the session was lost.
#[derive(Clone, Copy, Debug, PartialEq, Eq)]
pub struct ConnectionFault;

/// A signal or property payload did not hold what it should.
#[derive(Clone, Copy, Debug, PartialEq, Eq)]
pub struct DecodeError;

/// A remote call (`activate`, `deactivate` or a read of `state`) failed.
#[derive(Clone, Copy, Debug, PartialEq, Eq)]
pub struct RemoteCallError;

/// An event was handed to a state machine that was waiting for another one.
/// The machine is left as it was.
#[derive(Clone, Copy, Debug, PartialEq, Eq)]
pub struct OutOfTurn;

/// The state in which an operation leaves the service.
pub open spec fn target_state(op: Operation) -> Seq<char> {
    match op {
        Operation::Activate => ACTIVE@,
        Operation::Deactivate => IDLE@,
    }
}

/// The operation a client asks for when it has read `state`: `deactivate` for
/// `active`, `activate` for everything else, unknown names included.
pub open spec fn opposite_operation(state: Seq<char>) -> Operation {
    if state == ACTIVE@ {
        Operation::Deactivate
    } else {
        Operation::Activate
    }
}

/// The two state names are different strings.
pub proof fn lemma_state_names_differ()
    ensures
        ACTIVE@ != IDLE@,
{
    reveal_strlit("active");
    reveal_strlit("idle");
    assert(ACTIVE@.len() == 6);
    assert(IDLE@.len() == 4);
}

impl Operation {
    /// The name of the state in which this operation leaves the service.
    pub fn target(&self) -> (name: &'static str)
        ensures
            name@ == target_state(*self),
    {
        match self {
            Operation::Activate => ACTIVE,
            Operation::Deactivate => IDLE,
        }
    }
}

/// Picks the operation that toggles a service whose state reads `state`.
pub fn toggle_operation(state: &str) -> (op: Operation)
    ensures
        op == opposite_operation(state@),
{
    if same_text(state, ACTIVE) {
        Operation::Deactivate
    } else {
        Operation::Activate
    }
}

} // verus!
