//! Bringing the controller up: out of sleep, through initialization mode,
//! where the bit timing is written, and into normal mode.
//!
//! Each mode change is requested with a write and is complete only when the
//! hardware acknowledges it in its status register. The sequence is therefore
//! a state machine that is fed one status read at a time: it stays where it
//! is until the acknowledgement that it waits for is seen, and then answers
//! with the writes of the next step.

use vstd::prelude::*;
use crate::can::{Can, RxPin, TxPin};
use crate::command::Command;
use crate::status::ModeStatus;
use crate::timing::BitTiming;

verus! {

/// The acknowledgement that the sequence is waiting for.
#[derive(Clone, Copy, Debug, PartialEq, Eq)]
pub enum Phase {
    /// The clock is on, the reset pulse is over and the sleep request is
    /// cleared: waiting for the controller to leave sleep mode.
    Waking,
    /// Initialization is requested: waiting for the controller to enter
    /// initialization mode.
    EnteringInit,
    /// The bit timing is written and the initialization request is cleared:
    /// waiting for the controller to leave initialization mode.
    LeavingInit,
}

impl Phase {
    /// Whether a status read shows the acknowledgement that this phase waits
    /// for.
    pub open spec fn acknowledged(self, status: ModeStatus) -> bool {
        match self {
            Phase::Waking => !status.slak,
            Phase::EnteringInit => status.inak,
            Phase::LeavingInit => !status.inak,
        }
    }

    /// The phase that follows this one; after the last the controller is in
    /// normal mode.
    pub open spec fn successor(self) -> Option<Phase> {
        match self {
            Phase::Waking => Some(Phase::EnteringInit),
            Phase::EnteringInit => Some(Phase::LeavingInit),
            Phase::LeavingInit => None,
        }
    }

    /// The writes that are made on entering this phase.
    pub open spec fn entry_script(self, timing: BitTiming) -> Seq<Command> {
        match self {
            Phase::Waking => seq![
                Command::SetClockEnable(true),
                Command::SetReset(true),
                Command::SetReset(false),
                Command::SetSleepRequest(false),
            ],
            Phase::EnteringInit => seq![Command::SetInitRequest(true)],
            Phase::LeavingInit => seq![
                Command::WriteBitTiming(timing),
                Command::SetInitRequest(false),
            ],
        }
    }
}

/// One step of the sequence: the phase after a status read (none when the
/// controller has reached normal mode) and the writes to make now.
pub open spec fn step(phase: Phase, status: ModeStatus, timing: BitTiming) -> (
    Option<Phase>,
    Seq<Command>,
) {
    if phase.acknowledged(status) {
        match phase.successor() {
            Some(next) => (Some(next), next.entry_script(timing)),
            None => (None, Seq::empty()),
        }
    } else {
        (Some(phase), Seq::empty())
    }
}

/// Every write of the configuration, in order: clock on, reset pulse, wake-up,
/// entry into initialization mode, bit timing, return to normal mode.
pub open spec fn configuration_script(timing: BitTiming) -> Seq<Command> {
    seq![
        Command::SetClockEnable(true),
        Command::SetReset(true),
        Command::SetReset(false),
        Command::SetSleepRequest(false),
        Command::SetInitRequest(true),
        Command::WriteBitTiming(timing),
        Command::SetInitRequest(false),
    ]
}

/// The sequence fed with a series of status reads, from a given phase (none
/// once normal mode is reached): where it ends and all that it asks to write
/// on the way.
pub open spec fn drive(phase: Option<Phase>, statuses: Seq<ModeStatus>, timing: BitTiming) -> (
    Option<Phase>,
    Seq<Command>,
)
    decreases statuses.len(),
{
    if statuses.len() == 0 {
        (phase, Seq::empty())
    } else {
        match phase {
            None => (None, Seq::empty()),
            Some(current) => {
                let (next, now) = step(current, statuses.first(), timing);
                let (last, later) = drive(next, statuses.drop_first(), timing);
                (last, now + later)
            },
        }
    }
}

/// The writes that are still to come when the sequence stands at a phase.
pub open spec fn outstanding(phase: Option<Phase>, timing: BitTiming) -> Seq<Command> {
    match phase {
        Some(Phase::Waking) => Phase::EnteringInit.entry_script(timing)
            + Phase::LeavingInit.entry_script(timing),
        Some(Phase::EnteringInit) => Phase::LeavingInit.entry_script(timing),
        Some(Phase::LeavingInit) => Seq::empty(),
        None => Seq::empty(),
    }
}

/// Whatever the status reads are, the sequence neither skips, repeats nor
/// reorders a write: what it asks for on the way, followed by what is still
/// outstanding where it ends, is what was outstanding where it began.
pub proof fn lemma_drive_keeps_order(
    phase: Option<Phase>,
    statuses: Seq<ModeStatus>,
    timing: BitTiming,
)
    ensures
        drive(phase, statuses, timing).1 + outstanding(drive(phase, statuses, timing).0, timing)
            == outstanding(phase, timing),
    decreases statuses.len(),
{
    let (last, written) = drive(phase, statuses, timing);
    if statuses.len() == 0 || phase is None {
        assert(written + outstanding(last, timing) =~= outstanding(phase, timing));
    } else {
        let current = phase->0;
        let (next, now) = step(current, statuses.first(), timing);
        let (end, later) = drive(next, statuses.drop_first(), timing);
        lemma_drive_keeps_order(next, statuses.drop_first(), timing);
        assert(now + outstanding(next, timing) =~= outstanding(phase, timing));
        assert(written + outstanding(last, timing) =~= now + (later + outstanding(end, timing)));
    }
}

/// A configuration that reaches normal mode has made exactly the writes of
/// the configuration script, in its order, however long each acknowledgement
/// took; one that has not yet reached it has made a prefix of them.
pub proof fn lemma_configuration_follows_script(statuses: Seq<ModeStatus>, timing: BitTiming)
    ensures
        ({
            let (last, written) = drive(Some(Phase::Waking), statuses, timing);
            let all = Phase::Waking.entry_script(timing) + written;
            &&& all.is_prefix_of(configuration_script(timing))
            &&& last is None ==> all == configuration_script(timing)
        }),
{
    let (last, written) = drive(Some(Phase::Waking), statuses, timing);
    let all = Phase::Waking.entry_script(timing) + written;
    lemma_drive_keeps_order(Some(Phase::Waking), statuses, timing);
    assert(all + outstanding(last, timing) =~= Phase::Waking.entry_script(timing) + (written
        + outstanding(last, timing)));
    assert(Phase::Waking.entry_script(timing) + outstanding(Some(Phase::Waking), timing)
        =~= configuration_script(timing));
    if last is None {
        assert(all =~= all + outstanding(last, timing));
    }
}

/// The bit timing is written only in answer to a read that shows the
/// controller in initialization mode, and the request to leave that mode
/// follows it at once.
pub proof fn lemma_timing_is_written_in_init_mode(
    phase: Phase,
    status: ModeStatus,
    timing: BitTiming,
    i: int,
)
    requires
        0 <= i < step(phase, status, timing).1.len(),
        step(phase, status, timing).1[i] is WriteBitTiming,
    ensures
        status.inak,
        phase == Phase::EnteringInit,
        step(phase, status, timing).0 == Some(Phase::LeavingInit),
        step(phase, status, timing).1 == seq![
            Command::WriteBitTiming(timing),
            Command::SetInitRequest(false),
        ],
{
}

/// The sequence never waits for something that has already happened: a read
/// that shows the awaited acknowledgement always moves it on, and no other
/// read does.
pub proof fn lemma_step_moves_on_acknowledgement(
    phase: Phase,
    status: ModeStatus,
    timing: BitTiming,
)
    ensures
        phase.acknowledged(status) <==> step(phase, status, timing).0 == phase.successor(),
        !phase.acknowledged(status) <==> step(phase, status, timing) == (
            Some(phase),
            Seq::<Command>::empty(),
        ),
{
    if phase.acknowledged(status) && phase.successor() is Some {
        let next = phase.successor()->0;
        assert(next.entry_script(timing).len() > 0);
    }
}

/// A controller that is being brought up. It owns the peripheral and the two
/// lines, as the configured controller will.
pub struct Bringup<CAN, PINS> {
    can: CAN,
    pins: PINS,
    timing: BitTiming,
    phase: Phase,
}

/// Where the sequence stands after a status read.
pub enum Progress<CAN, PINS> {
    /// An acknowledgement is still awaited: read the status again.
    Pending(Bringup<CAN, PINS>),
    /// The controller is in normal mode.
    Ready(Can<CAN, PINS>),
}

impl<CAN, TX: TxPin<CAN>, RX: RxPin<CAN>> Bringup<CAN, (TX, RX)> {
    /// The peripheral that is being brought up.
    pub closed spec fn spec_peripheral(&self) -> CAN {
        self.can
    }

    /// The two lines that are held for it.
    pub closed spec fn spec_pins(&self) -> (TX, RX) {
        self.pins
    }

    /// The bit timing that will be written.
    pub closed spec fn spec_timing(&self) -> BitTiming {
        self.timing
    }

    /// The acknowledgement that is awaited.
    pub closed spec fn spec_phase(&self) -> Phase {
        self.phase
    }

    /// Starts the sequence: the result waits for the controller to wake up.
    /// The writes of `Phase::Waking` are the caller's to issue.
    pub(crate) fn start(can: CAN, pins: (TX, RX), timing: BitTiming) -> (bringup: Self)
        ensures
            bringup.spec_peripheral() == can,
            bringup.spec_pins() == pins,
            bringup.spec_timing() == timing,
            bringup.spec_phase() == Phase::Waking,
    {
        Bringup { can, pins, timing, phase: Phase::Waking }
    }

    /// The peripheral, for whoever performs the register accesses.
    pub fn peripheral(&self) -> (can: &CAN)
        ensures
            *can == self.spec_peripheral(),
    {
        &self.can
    }

    /// The bit timing that will be written.
    #[verifier::when_used_as_spec(spec_timing)]
    pub fn timing(&self) -> (timing: BitTiming)
        ensures
            timing == self.spec_timing(),
    {
        self.timing
    }

    /// The acknowledgement that is awaited.
    #[verifier::when_used_as_spec(spec_phase)]
    pub fn phase(&self) -> (phase: Phase)
        ensures
            phase == self.spec_phase(),
    {
        self.phase
    }

    /// Takes one read of the status register. While the awaited
    /// acknowledgement is missing nothing changes and nothing is to be
    /// written. Once it is seen, the sequence moves on and the result holds
    /// the writes of the next step; after the last acknowledgement it holds
    /// the configured controller.
    pub fn poll(self, status: ModeStatus) -> (r: (Progress<CAN, (TX, RX)>, Vec<Command>))
        ensures
            r.1@ == step(self.spec_phase(), status, self.spec_timing()).1,
            match step(self.spec_phase(), status, self.spec_timing()).0 {
                Some(next) => r.0 matches Progress::Pending(bringup) && bringup.spec_phase() == next
                    && bringup.spec_timing() == self.spec_timing() && bringup.spec_peripheral()
                    == self.spec_peripheral() && bringup.spec_pins() == self.spec_pins(),
                None => r.0 matches Progress::Ready(can) && can.spec_peripheral()
                    == self.spec_peripheral() && can.spec_pins() == self.spec_pins(),
            },
    {
        let mut commands: Vec<Command> = Vec::new();
        let Bringup { can, pins, timing, phase } = self;
        match phase {
            Phase::Waking => {
                if status.slak {
                    (Progress::Pending(Bringup { can, pins, timing, phase }), commands)
                } else {
                    commands.push(Command::SetInitRequest(true));
                    assert(commands@ =~= Phase::EnteringInit.entry_script(timing));
                    (
                        Progress::Pending(Bringup { can, pins, timing, phase: Phase::EnteringInit }),
                        commands,
                    )
                }
            },
            Phase::EnteringInit => {
                if !status.inak {
                    (Progress::Pending(Bringup { can, pins, timing, phase }), commands)
                } else {
                    commands.push(Command::WriteBitTiming(timing));
                    commands.push(Command::SetInitRequest(false));
                    assert(commands@ =~= Phase::LeavingInit.entry_script(timing));
                    (
                        Progress::Pending(Bringup { can, pins, timing, phase: Phase::LeavingInit }),
                        commands,
                    )
                }
            },
            Phase::LeavingInit => {
                if status.inak {
                    (Progress::Pending(Bringup { can, pins, timing, phase }), commands)
                } else {
                    (Progress::Ready(Can::assemble(can, pins)), commands)
                }
            },
        }
    }
}

impl<CAN, TX: TxPin<CAN>, RX: RxPin<CAN>> Progress<CAN, (TX, RX)> {
    /// The peripheral, whichever of the two holds it.
    pub open spec fn spec_peripheral(&self) -> CAN {
        match self {
            Progress::Pending(bringup) => bringup.spec_peripheral(),
            Progress::Ready(can) => can.spec_peripheral(),
        }
    }

    /// The peripheral, for whoever performs the register accesses.
    pub fn peripheral(&self) -> (can: &CAN)
        ensures
            *can == self.spec_peripheral(),
    {
        match self {
            Progress::Pending(bringup) => bringup.peripheral(),
            Progress::Ready(can) => can.peripheral(),
        }
    }
}

} // verus!
