//! The ways in which one protocol cycle can fail.

use vstd::prelude::*;

verus! {

/// Why a cycle produced no measurement. Every kind is transient: the caller
/// reports it and tries the whole cycle again on its next tick.
#[derive(Clone, Copy, Debug, PartialEq, Eq, Structural)]
pub enum ProtocolError {
    /// The transport rejected the address, the write or the read.
    BusFault,
    /// The number of bytes that came back is not that of a frame.
    FrameLengthFault,
    /// The status bit says that the measurement is still in progress.
    BusyFault,
    /// Kept for structural checks beyond length and status; nothing in this
    /// crate produces it.
    MalformedFrame,
}

} // verus!
