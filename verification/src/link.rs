//! The radio receive loop's decision logic. The radio driver itself is an
//! external collaborator: the firmware performs one listen attempt, reports
//! its outcome as an `RxEvent`, and this module decides whether the loop
//! delivers a message, keeps listening, or gives up.

use vstd::prelude::*;

use crate::protocol::{spec_decode, Message};

verus! {

/// The outcome of one listen attempt, as the radio driver reports it.
pub enum RxEvent {
    /// The radio could not be set up to listen; the attempt is
    /// unrecoverable.
    SetupFailed,
    /// The radio failed while receiving; another attempt may succeed.
    RxFailed,
    /// The radio handed back a packet's bytes.
    Received(Vec<u8>),
}

/// What the receive loop does after one listen attempt.
#[derive(Clone, Copy, Debug, PartialEq, Eq, Structural)]
pub enum RxStep {
    /// Stop the loop and report a transport error.
    Fail,
    /// Discard and listen again.
    KeepListening,
    /// A well-formed frame arrived; hand its message to the controller.
    Delivered(Message),
}

/// The loop's decision for each outcome: a setup failure is fatal, a
/// receive failure or a malformed packet is discarded and the loop listens
/// on, and only a packet that decodes is delivered.
pub open spec fn spec_rx_step(e: RxEvent) -> RxStep {
    match e {
        RxEvent::SetupFailed => RxStep::Fail,
        RxEvent::RxFailed => RxStep::KeepListening,
        RxEvent::Received(bytes) => match spec_decode(bytes@) {
            Some(m) => RxStep::Delivered(m),
            None => RxStep::KeepListening,
        },
    }
}

/// Decide what the receive loop does after one listen attempt.
pub fn rx_step(e: &RxEvent) -> (r: RxStep)
    ensures
        r == spec_rx_step(*e),
{
    match e {
        RxEvent::SetupFailed => RxStep::Fail,
        RxEvent::RxFailed => RxStep::KeepListening,
        RxEvent::Received(bytes) => match Message::from_bytes(bytes.as_slice()) {
            Some(m) => RxStep::Delivered(m),
            None => RxStep::KeepListening,
        },
    }
}

} // verus!
