//! A heartbeat-driven toggle between two peers on a message bus.
//!
//! A service object holds one state, `active` or `idle`, and broadcasts a
//! heartbeat every few seconds. A client listens for the heartbeat, reads the
//! state and asks for the opposite one. This crate holds the decisions of both
//! peers as state machines from events to actions; the program around it
//! performs the actions on the bus and hands back what happened.

pub mod protocol;
pub mod text;
pub mod service;
pub mod clock;
pub mod emitter;
pub mod identity;
pub mod discovery;
pub mod payload;
pub mod toggler;
pub mod laws;
