//! Protocol logic for a DHT20-class humidity and temperature sensor on a
//! two-wire serial bus.
//!
//! The crate holds what can be said about the sensor without touching a bus:
//!
//! * [`decoder`] turns the bytes of a reply into a [`measurement`], or into a
//!   [`error::ProtocolError`]; [`frame`] describes how the two 20-bit fields
//!   lie in those bytes.
//! * [`cycle`] sequences one trigger-measure-read cycle as a state machine
//!   that the caller drives: it performs each action on its bus and clock and
//!   reports the event back. [`trace`] proves what such a cycle does over any
//!   sequence of events.
//!
//! No function here blocks, sleeps or allocates, and none keeps state
//! between cycles.

pub mod cycle;
pub mod decoder;
pub mod error;
pub mod frame;
pub mod measurement;
pub mod power;
pub mod trace;
