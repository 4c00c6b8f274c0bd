//! One trigger-measure-read cycle, as a state machine.
//!
//! The bus and the clock are not this crate's to drive. The machine says what
//! is to be done next; the caller does it and reports how it went:
//!
//! ```text
//! begin_cycle --> Bind --> Write --> Wait --> Read --> Finish(frame or length fault)
//!                  |         |         |        |
//!                  +---------+---------+--------+----> Finish(bus fault)   on `Failed`
//! ```
//!
//! Nothing is retried inside a cycle: a fault ends it, and the caller starts
//! a new one when it sees fit.

use vstd::prelude::*;
use crate::error::ProtocolError;
use crate::frame::{RawFrame, FRAME_LEN};

verus! {

/// The sensor's fixed address on the bus.
pub const SENSOR_ADDRESS: u16 = 0x38;

/// The command that asks the sensor for a new measurement.
pub const TRIGGER_COMMAND: [u8; 3] = [0xAC, 0x33, 0x00];

/// How long the sensor needs after the trigger before it may be read, in
/// milliseconds. Nothing else may happen on the bus for this sensor in that
/// time.
pub const SETTLE_MILLIS: u64 = 80;

/// What the caller is asked to do next.
#[derive(Clone, Copy, Debug, PartialEq, Eq)]
pub enum CycleAction {
    /// Direct the transport to the device at `address`.
    Bind { address: u16 },
    /// Send `command` to the device.
    Write { command: [u8; 3] },
    /// Let `millis` milliseconds pass.
    Wait { millis: u64 },
    /// Read up to `length` bytes from the device.
    Read { length: usize },
    /// Nothing more: the cycle has ended with `outcome`.
    Finish { outcome: Result<RawFrame, ProtocolError> },
}

/// How the action that was asked for went.
#[derive(Clone, Copy, Debug, PartialEq, Eq)]
pub enum CycleEvent {
    /// It came to its end without an error and handed nothing back.
    Completed,
    /// It came to its end without an error, and the device sent `count`
    /// bytes, stored from the start of `buffer`.
    Received { buffer: [u8; FRAME_LEN], count: usize },
    /// The transport reported an error.
    Failed,
}

/// Where a cycle stands: which action is under way, or how the cycle ended.
#[derive(Clone, Copy, Debug, PartialEq, Eq)]
pub enum CycleState {
    /// The bind is under way.
    Binding,
    /// The trigger is being written.
    Triggering,
    /// The sensor is measuring.
    Settling,
    /// The frame is being read.
    Reading,
    /// The cycle is over.
    Finished { outcome: Result<RawFrame, ProtocolError> },
}

/// How a cycle starts: with the bind.
pub open spec fn begin_spec() -> (CycleState, CycleAction) {
    (CycleState::Binding, CycleAction::Bind { address: SENSOR_ADDRESS })
}

/// The end of a cycle with `outcome`.
pub open spec fn finish_spec(outcome: Result<RawFrame, ProtocolError>) -> (
    CycleState,
    CycleAction,
) {
    (CycleState::Finished { outcome }, CycleAction::Finish { outcome })
}

/// What the reply to the read makes of the cycle. A reported error is a bus
/// fault. Otherwise the bytes received are a frame if there are exactly
/// `FRAME_LEN` of them, and a length fault if not; a reply that hands no
/// bytes over counts as none received.
pub open spec fn read_outcome(event: CycleEvent) -> Result<RawFrame, ProtocolError> {
    match event {
        CycleEvent::Failed => Err(ProtocolError::BusFault),
        CycleEvent::Received { buffer, count } => if count == FRAME_LEN {
            Ok(RawFrame { bytes: buffer })
        } else {
            Err(ProtocolError::FrameLengthFault)
        },
        CycleEvent::Completed => Err(ProtocolError::FrameLengthFault),
    }
}

/// The transition function. While the bind, the write or the wait is under
/// way, `Failed` ends the cycle with a bus fault and any other event moves on
/// to the next action; bytes that came with it are ignored. The event that
/// answers the read ends the cycle with `read_outcome`. A finished cycle
/// stays as it is.
pub open spec fn step_spec(state: CycleState, event: CycleEvent) -> (CycleState, CycleAction) {
    match state {
        CycleState::Binding => if event is Failed {
            finish_spec(Err(ProtocolError::BusFault))
        } else {
            (CycleState::Triggering, CycleAction::Write { command: TRIGGER_COMMAND })
        },
        CycleState::Triggering => if event is Failed {
            finish_spec(Err(ProtocolError::BusFault))
        } else {
            (CycleState::Settling, CycleAction::Wait { millis: SETTLE_MILLIS })
        },
        CycleState::Settling => if event is Failed {
            finish_spec(Err(ProtocolError::BusFault))
        } else {
            (CycleState::Reading, CycleAction::Read { length: FRAME_LEN })
        },
        CycleState::Reading => finish_spec(read_outcome(event)),
        CycleState::Finished { outcome } => finish_spec(outcome),
    }
}

/// Starts a cycle: the state to keep and the first action to perform.
pub fn begin_cycle() -> (r: (CycleState, CycleAction))
    ensures
        r == begin_spec(),
{
    (CycleState::Binding, CycleAction::Bind { address: SENSOR_ADDRESS })
}

/// Takes the cycle one step on: from the state and the event that reports on
/// the last action to the next state and the next action.
///
/// A failure of the bind, the write, the wait or the read ends the cycle with
/// a bus fault there and then. The write is asked for only after the bind has
/// gone through, and the read only after the wait has.
pub fn step(state: CycleState, event: CycleEvent) -> (r: (CycleState, CycleAction))
    ensures
        r == step_spec(state, event),
        event is Failed && !(state is Finished) ==> r == finish_spec(
            Err(ProtocolError::BusFault),
        ),
        !(r.1 is Bind),
        r.1 is Write <==> state is Binding && !(event is Failed),
        r.1 is Wait <==> state is Triggering && !(event is Failed),
        r.1 is Read <==> state is Settling && !(event is Failed),
        r.1 matches CycleAction::Finish { outcome } ==> r.0 == (CycleState::Finished { outcome }),
{
    match state {
        CycleState::Binding => match event {
            CycleEvent::Failed => finish(Err(ProtocolError::BusFault)),
            _ => (CycleState::Triggering, CycleAction::Write { command: TRIGGER_COMMAND }),
        },
        CycleState::Triggering => match event {
            CycleEvent::Failed => finish(Err(ProtocolError::BusFault)),
            _ => (CycleState::Settling, CycleAction::Wait { millis: SETTLE_MILLIS }),
        },
        CycleState::Settling => match event {
            CycleEvent::Failed => finish(Err(ProtocolError::BusFault)),
            _ => (CycleState::Reading, CycleAction::Read { length: FRAME_LEN }),
        },
        CycleState::Reading => match event {
            CycleEvent::Failed => finish(Err(ProtocolError::BusFault)),
            CycleEvent::Received { buffer, count } => {
                if count == FRAME_LEN {
                    finish(Ok(RawFrame { bytes: buffer }))
                } else {
                    finish(Err(ProtocolError::FrameLengthFault))
                }
            },
            CycleEvent::Completed => finish(Err(ProtocolError::FrameLengthFault)),
        },
        CycleState::Finished { outcome } => finish(outcome),
    }
}

fn finish(outcome: Result<RawFrame, ProtocolError>) -> (r: (CycleState, CycleAction))
    ensures
        r == finish_spec(outcome),
{
    (CycleState::Finished { outcome }, CycleAction::Finish { outcome })
}

} // verus!
