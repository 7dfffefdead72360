//! The conditions under which the driver refuses to go on.

use vstd::prelude::*;

verus! {

/// Why an operation was refused. More conditions may be added as the driver
/// learns to report faults that the hardware detects.
#[non_exhaustive]
#[derive(Clone, Copy, Debug, PartialEq, Eq)]
pub enum Error {
    /// The identifier does not fit the addressing mode, or the payload is
    /// longer than eight bytes.
    InvalidFrameParameters,
    /// The prescaler that the clock and the baud rate call for is too large
    /// for the bit-timing register, or the baud rate is zero.
    PrescalerOverflow,
    /// The baud rate is too high for the clock: the prescaler would be zero.
    PrescalerZero,
    /// All three transmit mailboxes hold a frame that is still pending.
    MailboxUnavailable,
}

} // verus!
