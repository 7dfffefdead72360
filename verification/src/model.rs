//! A model of the registers that the driver writes, and what its scripts do to
//! them. The model records what the controller has been told; how the
//! hardware answers (acknowledgements, mailboxes becoming empty again) is
//! outside it and reaches the driver only through status reads.

use vstd::prelude::*;
use crate::bringup::configuration_script;
use crate::can::transmit_script;
use crate::command::{Command, Mailbox};
use crate::frame::{padded, FrameView, Identifier};
use crate::status::TxStatus;
use crate::timing::BitTiming;

verus! {

/// The fields of one transmit mailbox.
pub struct MailboxRegisters {
    /// Data length code.
    pub dlc: u8,
    /// Transmit global time.
    pub tgt: bool,
    /// Identifier extension: the extended identifier field is in use.
    pub ide: bool,
    /// Standard identifier field.
    pub stid: u16,
    /// Extended identifier field.
    pub exid: u32,
    /// Remote transmission request.
    pub rtr: bool,
    /// Transmit request.
    pub txrq: bool,
    /// Payload bytes 0 to 3.
    pub data_low: (u8, u8, u8, u8),
    /// Payload bytes 4 to 7.
    pub data_high: (u8, u8, u8, u8),
}

/// The fields that the driver writes.
pub struct Registers {
    /// The controller's bus clock is enabled.
    pub clock_enabled: bool,
    /// The controller's reset line is asserted.
    pub reset: bool,
    /// Sleep request.
    pub sleep_request: bool,
    /// Initialization request.
    pub init_request: bool,
    pub timing: BitTiming,
    pub mailboxes: Map<Mailbox, MailboxRegisters>,
}

impl MailboxRegisters {
    /// The eight payload bytes, in order.
    pub open spec fn bytes(self) -> Seq<u8> {
        seq![
            self.data_low.0,
            self.data_low.1,
            self.data_low.2,
            self.data_low.3,
            self.data_high.0,
            self.data_high.1,
            self.data_high.2,
            self.data_high.3,
        ]
    }

    /// The frame that the mailbox holds: the identifier from the field that
    /// the extension bit selects, and as many payload bytes as the length
    /// code says.
    pub open spec fn frame(self) -> FrameView {
        FrameView {
            id: if self.ide {
                self.exid
            } else {
                self.stid as u32
            },
            extended: self.ide,
            remote: self.rtr,
            data: self.bytes().take(self.dlc as int),
        }
    }

    /// The mailbox after one write that is addressed to it.
    pub open spec fn apply(self, command: Command) -> MailboxRegisters {
        match command {
            Command::WriteLength { dlc, tgt, .. } => MailboxRegisters { dlc, tgt, ..self },
            Command::WriteIdentifier { id, remote, .. } => match id {
                Identifier::Standard(stid) => MailboxRegisters {
                    ide: false,
                    stid,
                    rtr: remote,
                    ..self
                },
                Identifier::Extended(exid) => MailboxRegisters {
                    ide: true,
                    exid,
                    rtr: remote,
                    ..self
                },
            },
            Command::WriteDataLow { data0, data1, data2, data3, .. } => MailboxRegisters {
                data_low: (data0, data1, data2, data3),
                ..self
            },
            Command::WriteDataHigh { data4, data5, data6, data7, .. } => MailboxRegisters {
                data_high: (data4, data5, data6, data7),
                ..self
            },
            Command::RequestTransmit { .. } => MailboxRegisters { txrq: true, ..self },
            _ => self,
        }
    }
}

/// The mailbox that a write is addressed to, if it is addressed to one.
pub open spec fn target(command: Command) -> Option<Mailbox> {
    match command {
        Command::WriteLength { mailbox, .. } => Some(mailbox),
        Command::WriteIdentifier { mailbox, .. } => Some(mailbox),
        Command::WriteDataLow { mailbox, .. } => Some(mailbox),
        Command::WriteDataHigh { mailbox, .. } => Some(mailbox),
        Command::RequestTransmit { mailbox } => Some(mailbox),
        _ => None,
    }
}

impl Registers {
    /// The registers after one write.
    pub open spec fn apply(self, command: Command) -> Registers {
        match command {
            Command::SetClockEnable(on) => Registers { clock_enabled: on, ..self },
            Command::SetReset(on) => Registers { reset: on, ..self },
            Command::SetSleepRequest(on) => Registers { sleep_request: on, ..self },
            Command::SetInitRequest(on) => Registers { init_request: on, ..self },
            Command::WriteBitTiming(timing) => Registers { timing, ..self },
            _ => match target(command) {
                Some(mailbox) => Registers {
                    mailboxes: self.mailboxes.insert(
                        mailbox,
                        self.mailboxes[mailbox].apply(command),
                    ),
                    ..self
                },
                None => self,
            },
        }
    }

    /// The registers after a series of writes, made in order.
    pub open spec fn run(self, script: Seq<Command>) -> Registers
        decreases script.len(),
    {
        if script.len() == 0 {
            self
        } else {
            self.run(script.drop_last()).apply(script.last())
        }
    }

    /// The registers after a transmission was attempted under the given
    /// transmit status.
    pub open spec fn after_tx(self, status: TxStatus, frame: FrameView) -> Registers {
        match status.lowest_empty() {
            Some(mailbox) => self.run(transmit_script(mailbox, frame)),
            None => self,
        }
    }
}

/// The fields of a mailbox once a frame has been loaded into it and its
/// transmission requested. Of the two identifier fields, the one that the
/// frame does not use keeps what it held.
pub open spec fn loaded(before: MailboxRegisters, frame: FrameView) -> MailboxRegisters {
    let bytes = padded(frame.data);
    MailboxRegisters {
        dlc: frame.data.len() as u8,
        tgt: false,
        ide: frame.extended,
        stid: if frame.extended {
            before.stid
        } else {
            frame.id as u16
        },
        exid: if frame.extended {
            frame.id
        } else {
            before.exid
        },
        rtr: frame.remote,
        txrq: true,
        data_low: (bytes[0], bytes[1], bytes[2], bytes[3]),
        data_high: (bytes[4], bytes[5], bytes[6], bytes[7]),
    }
}

/// Running a script that ends in one more write is running the script and
/// then making that write.
pub proof fn lemma_run_push(registers: Registers, script: Seq<Command>, command: Command)
    ensures
        registers.run(script.push(command)) == registers.run(script).apply(command),
{
    assert(script.push(command).drop_last() =~= script);
}

/// A transmission loads the frame into the chosen mailbox, sets its transmit
/// request, and touches nothing else: not the other two mailboxes, not the
/// mode requests, not the bit timing.
pub proof fn lemma_transmit_loads_one_mailbox(
    registers: Registers,
    mailbox: Mailbox,
    frame: FrameView,
)
    ensures
        registers.run(transmit_script(mailbox, frame)) == (Registers {
            mailboxes: registers.mailboxes.insert(
                mailbox,
                loaded(registers.mailboxes[mailbox], frame),
            ),
            ..registers
        }),
{
    let script = transmit_script(mailbox, frame);
    let s0 = Seq::<Command>::empty();
    let s1 = s0.push(script[0]);
    let s2 = s1.push(script[1]);
    let s3 = s2.push(script[2]);
    let s4 = s3.push(script[3]);
    let s5 = s4.push(script[4]);
    assert(s5 =~= script);
    lemma_run_push(registers, s0, script[0]);
    lemma_run_push(registers, s1, script[1]);
    lemma_run_push(registers, s2, script[2]);
    lemma_run_push(registers, s3, script[3]);
    lemma_run_push(registers, s4, script[4]);
    let after = registers.run(script);
    assert(after.mailboxes =~= registers.mailboxes.insert(
        mailbox,
        loaded(registers.mailboxes[mailbox], frame),
    ));
}

/// A mailbox that was loaded holds the frame that it was loaded with, whole:
/// neither the identifier nor the payload is cut short on the way.
pub proof fn lemma_loaded_mailbox_holds_the_frame(before: MailboxRegisters, frame: FrameView)
    requires
        frame.valid(),
    ensures
        loaded(before, frame).frame() == frame,
        loaded(before, frame).txrq,
        !loaded(before, frame).tgt,
{
    let after = loaded(before, frame);
    assert(after.frame().data =~= frame.data);
}

/// After a transmission that found a mailbox empty, the mailbox with the
/// lowest number among the empty ones holds the frame, and its transmission
/// is requested.
pub proof fn lemma_tx_loads_the_frame(registers: Registers, status: TxStatus, frame: FrameView)
    requires
        frame.valid(),
        status.lowest_empty() is Some,
    ensures
        registers.after_tx(status, frame).mailboxes[status.lowest_empty()->0].frame() == frame,
        registers.after_tx(status, frame).mailboxes[status.lowest_empty()->0].txrq,
{
    let mailbox = status.lowest_empty()->0;
    lemma_transmit_loads_one_mailbox(registers, mailbox, frame);
    lemma_loaded_mailbox_holds_the_frame(registers.mailboxes[mailbox], frame);
}

/// When all three mailboxes are busy a transmission leaves every register as
/// it was.
pub proof fn lemma_busy_leaves_registers(registers: Registers, status: TxStatus, frame: FrameView)
    requires
        !status.tme0,
        !status.tme1,
        !status.tme2,
    ensures
        status.lowest_empty() is None,
        registers.after_tx(status, frame) == registers,
{
}

/// A transmission changes at most the mailbox with the lowest number among
/// the empty ones.
pub proof fn lemma_tx_touches_only_the_chosen(
    registers: Registers,
    status: TxStatus,
    frame: FrameView,
    other: Mailbox,
)
    requires
        status.lowest_empty() != Some(other),
    ensures
        registers.after_tx(status, frame).mailboxes[other] == registers.mailboxes[other],
{
    if let Some(mailbox) = status.lowest_empty() {
        lemma_transmit_loads_one_mailbox(registers, mailbox, frame);
    }
}

/// The configuration leaves the clock enabled, the reset line released, both
/// mode requests cleared and the bit timing written. No mailbox is written.
pub proof fn lemma_configuration_programs_timing(registers: Registers, timing: BitTiming)
    ensures
        registers.run(configuration_script(timing)) == (Registers {
            clock_enabled: true,
            reset: false,
            sleep_request: false,
            init_request: false,
            timing,
            mailboxes: registers.mailboxes,
        }),
{
    let script = configuration_script(timing);
    let s0 = Seq::<Command>::empty();
    let s1 = s0.push(script[0]);
    let s2 = s1.push(script[1]);
    let s3 = s2.push(script[2]);
    let s4 = s3.push(script[3]);
    let s5 = s4.push(script[4]);
    let s6 = s5.push(script[5]);
    let s7 = s6.push(script[6]);
    assert(s7 =~= script);
    lemma_run_push(registers, s0, script[0]);
    lemma_run_push(registers, s1, script[1]);
    lemma_run_push(registers, s2, script[2]);
    lemma_run_push(registers, s3, script[3]);
    lemma_run_push(registers, s4, script[4]);
    lemma_run_push(registers, s5, script[5]);
    lemma_run_push(registers, s6, script[6]);
}

} // verus!
