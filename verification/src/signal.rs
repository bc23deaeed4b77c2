//! The signal state machine: four lamp states, their wire byte codes, the
//! fixed rotation cycle, and the per-state hold duration that the sender's
//! scheduler uses.

use vstd::prelude::*;

verus! {

/// The state of the traffic light. Exactly one of the four values holds at
/// any instant per node; `Off` is the power-on default. Each state has a
/// stable one-byte wire code (`'r'`, `'y'`, `'g'`, `'o'`).
#[derive(Clone, Copy, Debug, PartialEq, Eq, Structural)]
pub enum Signal {
    Red,
    Yellow,
    Green,
    Off,
}

/// One step along the fixed cycle Red -> Yellow -> Green -> Off -> Red.
pub open spec fn spec_rotate(s: Signal) -> Signal {
    match s {
        Signal::Red => Signal::Yellow,
        Signal::Yellow => Signal::Green,
        Signal::Green => Signal::Off,
        Signal::Off => Signal::Red,
    }
}

/// The wire byte code of a state.
pub open spec fn spec_signal_to_u8(s: Signal) -> u8 {
    match s {
        Signal::Red => 114,
        Signal::Yellow => 121,
        Signal::Green => 103,
        Signal::Off => 111,
    }
}

/// The state a wire byte stands for; any byte outside the four codes is
/// invalid.
pub open spec fn spec_signal_from_u8(byte: u8) -> Option<Signal> {
    if byte == 114 {
        Some(Signal::Red)
    } else if byte == 121 {
        Some(Signal::Yellow)
    } else if byte == 103 {
        Some(Signal::Green)
    } else if byte == 111 {
        Some(Signal::Off)
    } else {
        None
    }
}

/// How many seconds the sender holds a state before the next scheduled
/// rotation: Red 30, Yellow 5, Green 30, Off 15.
pub open spec fn spec_duration(s: Signal) -> u64 {
    match s {
        Signal::Red => 30,
        Signal::Yellow => 5,
        Signal::Green => 30,
        Signal::Off => 15,
    }
}

impl Signal {
    /// Advance this state one step along the fixed cycle.
    pub fn rotate(&mut self)
        ensures
            *final(self) == spec_rotate(*old(self)),
    {
        *self = match *self {
            Signal::Red => Signal::Yellow,
            Signal::Yellow => Signal::Green,
            Signal::Green => Signal::Off,
            Signal::Off => Signal::Red,
        };
    }

    /// Decode a wire byte into a state; `None` for any byte outside the four
    /// codes.
    pub fn from_u8(byte: u8) -> (r: Option<Signal>)
        ensures
            r == spec_signal_from_u8(byte),
    {
        match byte {
            114 => Some(Signal::Red),
            121 => Some(Signal::Yellow),
            103 => Some(Signal::Green),
            111 => Some(Signal::Off),
            _ => None,
        }
    }

    /// The wire byte code of this state.
    pub fn to_u8(&self) -> (r: u8)
        ensures
            r == spec_signal_to_u8(*self),
    {
        match *self {
            Signal::Red => 114,
            Signal::Yellow => 121,
            Signal::Green => 103,
            Signal::Off => 111,
        }
    }

    /// Seconds the sender holds this state before the next scheduled
    /// rotation.
    pub fn duration(&self) -> (r: u64)
        ensures
            r == spec_duration(*self),
    {
        match *self {
            Signal::Red => 30,
            Signal::Yellow => 5,
            Signal::Green => 30,
            Signal::Off => 15,
        }
    }
}

impl Default for Signal {
    /// The power-on state is `Off`.
    fn default() -> (r: Self)
        ensures
            r == Signal::Off,
    {
        Signal::Off
    }
}

/// Cycle closure: rotating four times from any state returns to that state.
pub proof fn lemma_rotate_cycle(s: Signal)
    ensures
        spec_rotate(spec_rotate(spec_rotate(spec_rotate(s)))) == s,
{
}

/// The byte encoding of states is a bijection: decoding an encoded state
/// yields the state itself.
pub proof fn lemma_signal_byte_round_trip(s: Signal)
    ensures
        spec_signal_from_u8(spec_signal_to_u8(s)) == Some(s),
{
}

} // verus!
