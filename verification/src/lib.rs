//! Driver logic for a microcontroller's CAN controller: frames, bit timing,
//! the mode sequence that brings the controller up, and transmission through
//! its three transmit mailboxes.
//!
//! The library never touches a register itself. It decides which register
//! accesses are to be made, in which order, and what each status read means;
//! whoever owns the hardware performs them.

pub mod bringup;
pub mod can;
pub mod command;
pub mod error;
pub mod frame;
pub mod model;
pub mod status;
pub mod timing;

pub use bringup::{Bringup, Phase, Progress};
pub use can::{Can, RxPin, TxPin};
pub use command::{Command, Mailbox};
pub use error::Error;
pub use frame::{CanFrame, FrameView, Identifier};
pub use status::{ModeStatus, TxStatus};
pub use timing::BitTiming;
