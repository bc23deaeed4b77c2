//! The receiver controller's decision logic: how one decoded message changes
//! the held state and which acknowledgment goes back, and the table that maps
//! a state to the lamps the indicator lights. The surrounding firmware owns
//! the radio and the output lines; it feeds received frames in and carries
//! the reply frames and lamp levels out.

use vstd::prelude::*;

use crate::protocol::{spec_decode, spec_encode, Message, MSG_SIZE};
use crate::signal::Signal;

verus! {

/// Which lamps are lit for a state. The mapping is data, not logic: each
/// state lights a fixed combination, `Off` lights none.
#[derive(Clone, Copy, Debug, PartialEq, Eq, Structural)]
pub struct LampState {
    pub red: bool,
    pub yellow: bool,
    pub green: bool,
}

/// The indicator table: each state lights exactly its own lamp; `Off`
/// lights none.
pub open spec fn spec_lamps(s: Signal) -> LampState {
    match s {
        Signal::Red => LampState { red: true, yellow: false, green: false },
        Signal::Yellow => LampState { red: false, yellow: true, green: false },
        Signal::Green => LampState { red: false, yellow: false, green: true },
        Signal::Off => LampState { red: false, yellow: false, green: false },
    }
}

/// Look up which lamps a state lights.
pub fn lamps_for(s: Signal) -> (r: LampState)
    ensures
        r == spec_lamps(s),
{
    match s {
        Signal::Red => LampState { red: true, yellow: false, green: false },
        Signal::Yellow => LampState { red: false, yellow: true, green: false },
        Signal::Green => LampState { red: false, yellow: false, green: true },
        Signal::Off => LampState { red: false, yellow: false, green: false },
    }
}

/// The state the receiver holds after reacting to a message: a query leaves
/// it unchanged, an announcement replaces it.
pub open spec fn spec_receiver_state(current: Signal, m: Message) -> Signal {
    match m {
        Message::QuerySignal => current,
        Message::Signal(s) => s,
    }
}

/// The reply a message elicits: always the state held after the reaction —
/// the answer to a query, or the echo acknowledging an announcement.
pub open spec fn spec_receiver_reply(current: Signal, m: Message) -> Message {
    Message::Signal(spec_receiver_state(current, m))
}

/// The receiver controller: purely reactive, owns the node's authoritative
/// state.
pub struct Receiver {
    pub current: Signal,
}

impl Receiver {
    /// A receiver starts in the power-on state `Off`.
    pub fn new() -> (r: Receiver)
        ensures
            r.current == Signal::Off,
    {
        Receiver { current: Signal::Off }
    }

    /// React to one received byte sequence. A malformed frame is discarded:
    /// the state stays and no reply goes out. A decoded message updates the
    /// state as `spec_receiver_state` says and elicits the encoded reply.
    pub fn on_frame(&mut self, bytes: &[u8]) -> (reply: Option<[u8; MSG_SIZE]>)
        ensures
            spec_decode(bytes@) is None ==> final(self).current == old(self).current && reply
                is None,
            spec_decode(bytes@) matches Some(m) ==> {
                &&& final(self).current == spec_receiver_state(old(self).current, m)
                &&& reply matches Some(f) && f@ == spec_encode(
                    spec_receiver_reply(old(self).current, m),
                )
            },
    {
        match Message::from_bytes(bytes) {
            None => None,
            Some(m) => {
                let next: Signal = match m {
                    Message::QuerySignal => self.current,
                    Message::Signal(s) => s,
                };
                self.current = next;
                Some(Message::Signal(next).to_bytes())
            },
        }
    }

    /// Which lamps the indicator lights for the state held now.
    pub fn lamps(&self) -> (r: LampState)
        ensures
            r == spec_lamps(self.current),
    {
        lamps_for(self.current)
    }
}

} // verus!
