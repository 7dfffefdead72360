//! The register accesses that the driver asks for. Each one is a single write
//! to the controller, or to the bus control block that gates its clock and
//! reset; whoever owns the hardware carries them out in the order given.

use vstd::prelude::*;
use crate::frame::Identifier;
use crate::timing::BitTiming;

verus! {

/// One of the three transmit mailboxes.
#[derive(Clone, Copy, Debug, PartialEq, Eq)]
pub enum Mailbox {
    Mailbox0,
    Mailbox1,
    Mailbox2,
}

impl Mailbox {
    /// The mailbox's number: 0, 1 or 2.
    pub open spec fn spec_index(self) -> usize {
        match self {
            Mailbox::Mailbox0 => 0,
            Mailbox::Mailbox1 => 1,
            Mailbox::Mailbox2 => 2,
        }
    }

    /// The mailbox's number: 0, 1 or 2.
    #[verifier::when_used_as_spec(spec_index)]
    pub fn index(self) -> (i: usize)
        ensures
            i == self.spec_index(),
    {
        match self {
            Mailbox::Mailbox0 => 0,
            Mailbox::Mailbox1 => 1,
            Mailbox::Mailbox2 => 2,
        }
    }
}

/// A single write to the hardware.
#[derive(Clone, Copy, Debug, PartialEq, Eq)]
pub enum Command {
    /// Sets the bit that gates the controller's bus clock.
    SetClockEnable(bool),
    /// Drives the controller's reset line.
    SetReset(bool),
    /// Sets the sleep-request bit of the master control register.
    SetSleepRequest(bool),
    /// Sets the initialization-request bit of the master control register.
    SetInitRequest(bool),
    /// Writes the bit-timing register as a whole.
    WriteBitTiming(BitTiming),
    /// Sets the data length code and the transmit-global-time bit of a
    /// mailbox's length and time stamp register, keeping its other fields.
    WriteLength { mailbox: Mailbox, dlc: u8, tgt: bool },
    /// Sets the identifier-extension bit, the identifier field that goes with
    /// it, and the remote-request bit of a mailbox's identifier register,
    /// keeping its other fields.
    WriteIdentifier { mailbox: Mailbox, id: Identifier, remote: bool },
    /// Writes a mailbox's low data register: payload bytes 0 to 3.
    WriteDataLow { mailbox: Mailbox, data0: u8, data1: u8, data2: u8, data3: u8 },
    /// Writes a mailbox's high data register: payload bytes 4 to 7.
    WriteDataHigh { mailbox: Mailbox, data4: u8, data5: u8, data6: u8, data7: u8 },
    /// Sets a mailbox's transmit-request bit, which hands the mailbox to the
    /// hardware.
    RequestTransmit { mailbox: Mailbox },
}

} // verus!
