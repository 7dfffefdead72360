//! The controller: owner of the peripheral and of its two signal lines, and
//! the place where frames are mapped onto the transmit mailboxes.

use vstd::prelude::*;
use crate::bringup::{Bringup, Phase};
use crate::command::{Command, Mailbox};
use crate::error::Error;
use crate::frame::{identifier_of, padded, CanFrame, FrameView};
use crate::status::TxStatus;
use crate::timing::{prescaler, rates_supported, spec_prescaler, timing_for, BitTiming};

verus! {

/// Marks a pin type that is wired to the transmit signal of the peripheral
/// `CAN`.
pub trait TxPin<CAN> {

}

/// Marks a pin type that is wired to the receive signal of the peripheral
/// `CAN`.
pub trait RxPin<CAN> {

}

/// A configured controller. It holds the peripheral and the two lines so that
/// nobody else can use them; the state of the controller itself lives in the
/// hardware.
pub struct Can<CAN, PINS> {
    can: CAN,
    pins: PINS,
}

/// The writes that load a frame into a mailbox and hand it to the hardware:
/// length, identifier, the eight buffer bytes, and last the transmit request.
pub open spec fn transmit_script(mailbox: Mailbox, frame: FrameView) -> Seq<Command> {
    let bytes = padded(frame.data);
    seq![
        Command::WriteLength { mailbox, dlc: frame.data.len() as u8, tgt: false },
        Command::WriteIdentifier { mailbox, id: identifier_of(frame), remote: frame.remote },
        Command::WriteDataLow {
            mailbox,
            data0: bytes[0],
            data1: bytes[1],
            data2: bytes[2],
            data3: bytes[3],
        },
        Command::WriteDataHigh {
            mailbox,
            data4: bytes[4],
            data5: bytes[5],
            data6: bytes[6],
            data7: bytes[7],
        },
        Command::RequestTransmit { mailbox },
    ]
}

impl<CAN, TX: TxPin<CAN>, RX: RxPin<CAN>> Can<CAN, (TX, RX)> {
    /// The peripheral that this controller owns.
    pub closed spec fn spec_peripheral(&self) -> CAN {
        self.can
    }

    /// The two lines that this controller owns.
    pub closed spec fn spec_pins(&self) -> (TX, RX) {
        self.pins
    }

    /// Puts a controller together from its parts, once these have been
    /// brought up.
    pub(crate) fn assemble(can: CAN, pins: (TX, RX)) -> (controller: Self)
        ensures
            controller.spec_peripheral() == can,
            controller.spec_pins() == pins,
    {
        Can { can, pins }
    }

    /// Takes hold of the peripheral and its two lines and begins to configure
    /// the controller for a baud rate, given the frequency of the clock that
    /// feeds it (both in hertz).
    ///
    /// The result holds the first writes of the sequence: the bus clock is
    /// enabled, the reset line is pulsed, and the sleep request is cleared.
    /// From there `Bringup::poll` takes the sequence through initialization
    /// mode, where the bit timing is written, to the configured controller.
    pub fn can(can: CAN, pins: (TX, RX), baudrate: u32, pclk1: u32) -> (r: (
        Bringup<CAN, (TX, RX)>,
        Vec<Command>,
    ))
        requires
            rates_supported(pclk1, baudrate),
        ensures
            r.0.spec_peripheral() == can,
            r.0.spec_pins() == pins,
            r.0.spec_phase() == Phase::Waking,
            r.0.spec_timing() == timing_for(spec_prescaler(pclk1, baudrate)),
            r.1@ == Phase::Waking.entry_script(r.0.spec_timing()),
    {
        let timing = BitTiming::new(prescaler(pclk1, baudrate));
        let mut commands: Vec<Command> = Vec::new();
        commands.push(Command::SetClockEnable(true));
        commands.push(Command::SetReset(true));
        commands.push(Command::SetReset(false));
        commands.push(Command::SetSleepRequest(false));
        assert(commands@ =~= Phase::Waking.entry_script(timing));
        (Bringup::start(can, pins, timing), commands)
    }

    /// The peripheral, for whoever performs the register accesses.
    pub fn peripheral(&self) -> (can: &CAN)
        ensures
            *can == self.spec_peripheral(),
    {
        &self.can
    }

    /// Maps a frame onto a transmit mailbox, given the transmit status that
    /// was just read. The frame goes to the empty mailbox with the lowest
    /// number; the result holds the writes that load it and request its
    /// transmission, in the order in which they are to be made. When no
    /// mailbox is empty nothing is to be written, and the caller is told so.
    ///
    /// Nothing waits for the transmission to complete.
    pub fn tx(&mut self, status: TxStatus, frame: &CanFrame) -> (r: Result<Vec<Command>, Error>)
        ensures
            *final(self) == *old(self),
            match r {
                Ok(commands) => status.lowest_empty() matches Some(mailbox) && commands@
                    == transmit_script(mailbox, frame@),
                Err(e) => status.lowest_empty() is None && e == Error::MailboxUnavailable,
            },
    {
        if let Some(mailbox) = status.select_mailbox() {
            let bytes = frame.buffer();
            let mut commands: Vec<Command> = Vec::new();
            commands.push(
                Command::WriteLength { mailbox, dlc: frame.data().len() as u8, tgt: false },
            );
            commands.push(
                Command::WriteIdentifier {
                    mailbox,
                    id: frame.identifier(),
                    remote: frame.is_rtr(),
                },
            );
            commands.push(
                Command::WriteDataLow {
                    mailbox,
                    data0: bytes[0],
                    data1: bytes[1],
                    data2: bytes[2],
                    data3: bytes[3],
                },
            );
            commands.push(
                Command::WriteDataHigh {
                    mailbox,
                    data4: bytes[4],
                    data5: bytes[5],
                    data6: bytes[6],
                    data7: bytes[7],
                },
            );
            commands.push(Command::RequestTransmit { mailbox });
            assert(commands@ =~= transmit_script(mailbox, frame@));
            Ok(commands)
        } else {
            Err(Error::MailboxUnavailable)
        }
    }
}

} // verus!
