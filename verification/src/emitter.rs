//! The service's heartbeat: a timestamp broadcast every few seconds, for as
//! long as the process lives.

use vstd::prelude::*;
use crate::clock::current_unix_timestamp;
use crate::protocol::{OutOfTurn, HEARTBEAT_INTERVAL_SECS};

verus! {

/// A heartbeat in flight: the time at which it was made, in seconds since
/// the Unix epoch.
#[derive(Clone, Copy, Debug, PartialEq, Eq)]
pub struct HeartbeatEvent {
    pub timestamp: u64,
}

/// Where the emitter stands.
#[derive(Clone, Copy, Debug, PartialEq, Eq)]
pub enum EmitterPhase {
    /// Before the first heartbeat, or asleep between two.
    Waiting,
    /// This heartbeat has been handed out for emission.
    Emitting(HeartbeatEvent),
}

/// What became of a heartbeat that was handed out for emission.
#[derive(Clone, Copy, Debug, PartialEq, Eq)]
pub enum Emission {
    /// The signal went out, to whoever was subscribed.
    Sent,
    /// The served interface could not be found at its object path.
    InterfaceMissing,
    /// The signal could not be sent.
    Failed,
}

/// What the program does next on the emitter's behalf.
#[derive(Clone, Copy, Debug, PartialEq, Eq)]
pub enum EmitterAction {
    /// Emit this heartbeat and hand back what became of it.
    Emit(HeartbeatEvent),
    /// Sleep for this many seconds, then tick.
    Sleep(u64),
}

/// What there is to tell the operator about an emission.
#[derive(Clone, Copy, Debug, PartialEq, Eq)]
pub enum EmitterReport {
    /// The heartbeat with this timestamp went out.
    HeartbeatSent(u64),
    /// The interface was missing; the heartbeat was dropped.
    InterfaceMissing,
    /// The emission failed; the heartbeat was dropped.
    EmissionFailed,
}

/// The emitter's answer to an emission.
#[derive(Clone, Copy, Debug, PartialEq, Eq)]
pub struct EmitterOutcome {
    pub report: EmitterReport,
    pub action: EmitterAction,
}

/// The report that an emission of the heartbeat made at `timestamp` calls for.
pub open spec fn emission_report(emission: Emission, timestamp: u64) -> EmitterReport {
    match emission {
        Emission::Sent => EmitterReport::HeartbeatSent(timestamp),
        Emission::InterfaceMissing => EmitterReport::InterfaceMissing,
        Emission::Failed => EmitterReport::EmissionFailed,
    }
}

/// The service's heartbeat emitter.
#[derive(Clone, Copy, Debug, PartialEq, Eq)]
pub struct HeartbeatEmitter {
    pub phase: EmitterPhase,
}

impl HeartbeatEmitter {
    /// An emitter that has not emitted yet.
    pub fn new() -> (emitter: HeartbeatEmitter)
        ensures
            emitter.phase == EmitterPhase::Waiting,
    {
        HeartbeatEmitter { phase: EmitterPhase::Waiting }
    }

    /// The emitter's turn has come, at start or after a sleep, and the clock
    /// reads `now`: a heartbeat with that timestamp is handed out. While one
    /// is still out, the answer is `OutOfTurn`.
    pub fn tick_at(&mut self, now: u64) -> (answer: Result<EmitterAction, OutOfTurn>)
        ensures
            match old(self).phase {
                EmitterPhase::Waiting => {
                    &&& answer == Ok::<EmitterAction, OutOfTurn>(
                        EmitterAction::Emit(HeartbeatEvent { timestamp: now }),
                    )
                    &&& final(self).phase == EmitterPhase::Emitting(HeartbeatEvent { timestamp: now })
                },
                EmitterPhase::Emitting(_) => answer is Err && *final(self) == *old(self),
            },
    {
        match self.phase {
            EmitterPhase::Waiting => {
                let heartbeat = HeartbeatEvent { timestamp: now };
                self.phase = EmitterPhase::Emitting(heartbeat);
                Ok(EmitterAction::Emit(heartbeat))
            },
            EmitterPhase::Emitting(_) => Err(OutOfTurn),
        }
    }

    /// The emitter's turn has come: reads the clock and hands out a heartbeat
    /// with the time read. While one is still out, the answer is `OutOfTurn`.
    pub fn tick(&mut self) -> (answer: Result<EmitterAction, OutOfTurn>)
        ensures
            match old(self).phase {
                EmitterPhase::Waiting => {
                    &&& answer matches Ok(EmitterAction::Emit(heartbeat))
                    &&& final(self).phase == EmitterPhase::Emitting(heartbeat)
                },
                EmitterPhase::Emitting(_) => answer is Err && *final(self) == *old(self),
            },
    {
        match self.phase {
            EmitterPhase::Waiting => {
                let now = current_unix_timestamp();
                self.tick_at(now)
            },
            EmitterPhase::Emitting(_) => Err(OutOfTurn),
        }
    }

    /// The heartbeat that was handed out has been dealt with. Whatever became
    /// of it, the emitter reports it and sleeps until the next one is due: no
    /// emission ends the loop. While no heartbeat is out, the answer is
    /// `OutOfTurn`.
    pub fn emitted(&mut self, emission: Emission) -> (answer: Result<EmitterOutcome, OutOfTurn>)
        ensures
            match old(self).phase {
                EmitterPhase::Emitting(heartbeat) => {
                    &&& answer == Ok::<EmitterOutcome, OutOfTurn>(
                        EmitterOutcome {
                            report: emission_report(emission, heartbeat.timestamp),
                            action: EmitterAction::Sleep(HEARTBEAT_INTERVAL_SECS),
                        },
                    )
                    &&& final(self).phase == EmitterPhase::Waiting
                },
                EmitterPhase::Waiting => answer is Err && *final(self) == *old(self),
            },
    {
        match self.phase {
            EmitterPhase::Emitting(heartbeat) => {
                let report = match emission {
                    Emission::Sent => EmitterReport::HeartbeatSent(heartbeat.timestamp),
                    Emission::InterfaceMissing => EmitterReport::InterfaceMissing,
                    Emission::Failed => EmitterReport::EmissionFailed,
                };
                self.phase = EmitterPhase::Waiting;
                Ok(EmitterOutcome { report, action: EmitterAction::Sleep(HEARTBEAT_INTERVAL_SECS) })
            },
            EmitterPhase::Waiting => Err(OutOfTurn),
        }
    }
}

} // verus!
