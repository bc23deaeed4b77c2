//! The frame codec: the fixed four-byte wire representation of a `Message`
//! and its total encoder and partial decoder.

use vstd::prelude::*;

use crate::signal::{
    lemma_signal_byte_round_trip, spec_signal_from_u8, spec_signal_to_u8, Signal,
};

verus! {

/// A frame is exactly this many bytes: header, command, payload, footer.
pub const MSG_SIZE: usize = 4;

/// Sentinel byte that opens every frame.
pub const HEADER: u8 = 117;

/// Sentinel byte that closes every frame.
pub const FOOTER: u8 = 255;

/// The unit exchanged over the radio: either a request for the peer's
/// current state, or an announcement carrying one state value.
#[derive(Clone, Copy, Debug, PartialEq, Eq, Structural)]
pub enum Message {
    QuerySignal,
    Signal(Signal),
}

/// The command byte of a message: 0 for a query, 1 for a state announcement.
pub open spec fn spec_command(m: Message) -> u8 {
    match m {
        Message::QuerySignal => 0,
        Message::Signal(_) => 1,
    }
}

/// The payload byte of a message: 0 for a query, the state's wire code for
/// an announcement.
pub open spec fn spec_payload(m: Message) -> u8 {
    match m {
        Message::QuerySignal => 0,
        Message::Signal(s) => spec_signal_to_u8(s),
    }
}

/// The four-byte frame that carries a message.
pub open spec fn spec_encode(m: Message) -> Seq<u8> {
    seq![HEADER, spec_command(m), spec_payload(m), FOOTER]
}

/// What a byte sequence decodes to. Decoding fails for any sequence whose
/// length is not exactly four, whose sentinels do not match, whose command
/// byte is outside {0, 1}, or whose payload is not a valid state code when
/// the command announces a state. There is no partial recovery.
pub open spec fn spec_decode(bytes: Seq<u8>) -> Option<Message> {
    if bytes.len() != MSG_SIZE || bytes[0] != HEADER || bytes[3] != FOOTER {
        None
    } else if bytes[1] == 0 {
        Some(Message::QuerySignal)
    } else if bytes[1] == 1 {
        match spec_signal_from_u8(bytes[2]) {
            Some(s) => Some(Message::Signal(s)),
            None => None,
        }
    } else {
        None
    }
}

impl Message {
    /// Decode a received byte sequence; `None` for any malformed frame.
    pub fn from_bytes(bytes: &[u8]) -> (r: Option<Self>)
        ensures
            r == spec_decode(bytes@),
    {
        if bytes.len() != MSG_SIZE || bytes[0] != HEADER || bytes[3] != FOOTER {
            return None;
        }
        let command = bytes[1];
        let payload = bytes[2];

        match command {
            0 => Some(Message::QuerySignal),
            1 => match Signal::from_u8(payload) {
                Some(s) => Some(Message::Signal(s)),
                None => None,
            },
            _ => None,
        }
    }

    /// Encode this message as its four-byte frame. Total: every message has
    /// a frame.
    pub fn to_bytes(&self) -> (r: [u8; MSG_SIZE])
        ensures
            r@ == spec_encode(*self),
    {
        let r: [u8; MSG_SIZE] = match *self {
            Message::QuerySignal => [HEADER, 0, 0, FOOTER],
            Message::Signal(signal) => [HEADER, 1, signal.to_u8(), FOOTER],
        };
        proof {
            assert(r@ =~= spec_encode(*self));
        }
        r
    }
}

/// Round trip: decoding the frame of any message yields that message back.
/// In particular `decode(encode(Signal(s)))` is `Some(Signal(s))` for every
/// state `s`.
pub proof fn lemma_encode_decode(m: Message)
    ensures
        spec_decode(spec_encode(m)) == Some(m),
{
    match m {
        Message::QuerySignal => {
        }
        Message::Signal(s) => {
            lemma_signal_byte_round_trip(s);
        }
    }
}

/// A byte sequence with the wrong length, a bad sentinel, a command outside
/// {0, 1}, or an invalid state payload under command 1 never decodes.
pub proof fn lemma_decode_rejects(bytes: Seq<u8>)
    requires
        bytes.len() != 4 || bytes[0] != HEADER || bytes[3] != FOOTER || bytes[1] > 1 || (bytes[1]
            == 1 && spec_signal_from_u8(bytes[2]) is None),
    ensures
        spec_decode(bytes) is None,
{
}

} // verus!
