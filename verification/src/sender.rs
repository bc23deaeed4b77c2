//! The sender controller's decision logic: bootstrapping the initial state
//! from the receiver's answer to a startup query, rotating on timeout or
//! button press, producing the announcement frame, and reconciling with the
//! acknowledgment under the receiver-wins rule. The surrounding firmware
//! owns the radio, the timer and the button edge source; it runs the period
//! loop and hands the decoded replies in.

use vstd::prelude::*;

use crate::protocol::{spec_encode, Message, MSG_SIZE};
use crate::receiver::{spec_receiver_reply, spec_receiver_state};
use crate::signal::{spec_rotate, spec_duration, Signal};

verus! {

/// How one announcement round ended for the sender.
#[derive(Clone, Copy, Debug, PartialEq, Eq, Structural)]
pub enum AckStatus {
    /// The acknowledgment echoed the announced state.
    Confirmed,
    /// The acknowledgment carried a different state; the receiver's view
    /// won and was adopted.
    Superseded,
    /// A query or no decodable reply came back; the locally rotated state
    /// stands without confirmed sync.
    Unconfirmed,
}

/// The state the sender believes after the startup query: the state the
/// receiver answered with, or the power-on default `Off` when no state
/// answer arrived.
pub open spec fn spec_bootstrap(reply: Option<Message>) -> Signal {
    match reply {
        Some(Message::Signal(s)) => s,
        _ => Signal::Off,
    }
}

/// The state the sender believes after an announcement round: any state the
/// acknowledgment reported wins; otherwise the announced state stands.
pub open spec fn spec_reconcile(sent: Signal, reply: Option<Message>) -> Signal {
    match reply {
        Some(Message::Signal(s)) => s,
        _ => sent,
    }
}

/// How an announcement round is classified: confirmed on a matching echo,
/// superseded on a differing state answer, unconfirmed otherwise.
pub open spec fn spec_ack_status(sent: Signal, reply: Option<Message>) -> AckStatus {
    match reply {
        Some(Message::Signal(s)) => if s == sent {
            AckStatus::Confirmed
        } else {
            AckStatus::Superseded
        },
        _ => AckStatus::Unconfirmed,
    }
}

/// Which of the sender's two preview lamps are lit for a state. The sender
/// node has only a red and a green lamp; it shows Yellow as both at once
/// and `Off` as neither.
#[derive(Clone, Copy, Debug, PartialEq, Eq, Structural)]
pub struct PreviewLamps {
    pub red: bool,
    pub green: bool,
}

/// The sender's preview table: red for Red, both for Yellow, green for
/// Green, neither for `Off`.
pub open spec fn spec_preview(s: Signal) -> PreviewLamps {
    match s {
        Signal::Red => PreviewLamps { red: true, green: false },
        Signal::Yellow => PreviewLamps { red: true, green: true },
        Signal::Green => PreviewLamps { red: false, green: true },
        Signal::Off => PreviewLamps { red: false, green: false },
    }
}

/// Look up which preview lamps a state lights.
pub fn preview_for(s: Signal) -> (r: PreviewLamps)
    ensures
        r == spec_preview(s),
{
    match s {
        Signal::Red => PreviewLamps { red: true, green: false },
        Signal::Yellow => PreviewLamps { red: true, green: true },
        Signal::Green => PreviewLamps { red: false, green: true },
        Signal::Off => PreviewLamps { red: false, green: false },
    }
}

/// The sender controller: owns the node's belief of the current signal.
pub struct Sender {
    pub current: Signal,
}

impl Sender {
    /// Bootstrap from the reply to the startup query, defaulting to `Off`
    /// when no state answer arrived.
    pub fn new(query_reply: Option<Message>) -> (r: Sender)
        ensures
            r.current == spec_bootstrap(query_reply),
    {
        let current: Signal = match query_reply {
            Some(Message::Signal(s)) => s,
            _ => Signal::Off,
        };
        Sender { current }
    }

    /// Seconds to wait before the next scheduled rotation: the hold
    /// duration of the state held now.
    pub fn next_wait(&self) -> (r: u64)
        ensures
            r == spec_duration(self.current),
    {
        self.current.duration()
    }

    /// One rotation step, taken when the wait timed out or the button was
    /// pressed: advance one step along the cycle and produce the frame that
    /// announces the new state.
    pub fn advance(&mut self) -> (frame: [u8; MSG_SIZE])
        ensures
            final(self).current == spec_rotate(old(self).current),
            frame@ == spec_encode(Message::Signal(spec_rotate(old(self).current))),
    {
        self.current.rotate();
        Message::Signal(self.current).to_bytes()
    }

    /// Which preview lamps to light for the state believed now; the period
    /// loop refreshes the preview after each reconciliation.
    pub fn preview(&self) -> (r: PreviewLamps)
        ensures
            r == spec_preview(self.current),
    {
        preview_for(self.current)
    }

    /// Reconcile with the reply to an announcement: a state answer wins,
    /// whether it confirms or contradicts; a query or a missing reply
    /// leaves the announced state standing unconfirmed.
    pub fn on_ack(&mut self, reply: Option<Message>) -> (status: AckStatus)
        ensures
            final(self).current == spec_reconcile(old(self).current, reply),
            status == spec_ack_status(old(self).current, reply),
    {
        match reply {
            Some(Message::Signal(s)) => {
                if s == self.current {
                    AckStatus::Confirmed
                } else {
                    self.current = s;
                    AckStatus::Superseded
                }
            },
            _ => AckStatus::Unconfirmed,
        }
    }
}

/// A lossless exchange synchronizes the nodes: when the sender's
/// announcement reaches the receiver and the receiver's echo reaches the
/// sender, both nodes end on the announced state and the sender sees the
/// round confirmed.
pub proof fn lemma_exchange_synchronizes(sender_before: Signal, receiver_before: Signal)
    ensures
        ({
            let announced = spec_rotate(sender_before);
            let reply = spec_receiver_reply(receiver_before, Message::Signal(announced));
            &&& spec_receiver_state(receiver_before, Message::Signal(announced)) == announced
            &&& spec_reconcile(announced, Some(reply)) == announced
            &&& spec_ack_status(announced, Some(reply)) == AckStatus::Confirmed
        }),
{
}

} // verus!
