//! Protocol core for a two-node traffic-light link: a sender node decides
//! when the signal rotates and announces it over a lossy half-duplex radio;
//! a receiver node drives the physical light and answers queries. This crate
//! holds the byte-level frame codec, the signal state machine, and the two
//! controllers' decision logic; the radio driver, timers and GPIO are
//! external collaborators that the surrounding firmware supplies.

pub mod link;
pub mod protocol;
pub mod receiver;
pub mod sender;
pub mod signal;

pub use link::{rx_step, RxEvent, RxStep};
pub use protocol::{Message, FOOTER, HEADER, MSG_SIZE};
pub use receiver::{lamps_for, LampState, Receiver};
pub use sender::{preview_for, AckStatus, PreviewLamps, Sender};
pub use signal::Signal;
