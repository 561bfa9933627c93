//! The ways in which an operation on the board can fail.

use vstd::prelude::*;
use crate::address::{Target, TestChannel};
use crate::signal::SenseState;

verus! {

/// Why an operation failed. None of these is ever retried by the library:
/// a switch fabric must not be left half-way between two states.
#[derive(Clone, Copy, Debug, PartialEq, Eq, Structural)]
pub enum ErrorKind {
    /// A transaction with the expander failed or timed out.
    BusError,
    /// The responder sent nothing within the read bound.
    SerialTimeout,
    /// A channel, target, probe, pin or board position outside its range.
    OutOfRange,
    /// No daughterboard is seated on the position.
    NoDaughterboard,
    /// The path under test answered a command otherwise than it must.
    VerificationMismatch {
        target: Target,
        channel: TestChannel,
        command: u8,
        observed: SenseState,
        expected: SenseState,
    },
}

} // verus!
