//! What the driver reads back from the controller: the mode acknowledgements
//! and the state of the transmit mailboxes.

use vstd::prelude::*;
use crate::command::Mailbox;

verus! {

/// The acknowledgement bits of the master status register.
#[derive(Clone, Copy, Debug, PartialEq, Eq)]
pub struct ModeStatus {
    /// The controller is in sleep mode.
    pub slak: bool,
    /// The controller is in initialization mode.
    pub inak: bool,
}

/// The mailbox-empty flags of the transmit status register.
#[derive(Clone, Copy, Debug, PartialEq, Eq)]
pub struct TxStatus {
    pub tme0: bool,
    pub tme1: bool,
    pub tme2: bool,
}

impl TxStatus {
    /// Whether the given mailbox reports empty.
    pub open spec fn is_empty(self, mailbox: Mailbox) -> bool {
        match mailbox {
            Mailbox::Mailbox0 => self.tme0,
            Mailbox::Mailbox1 => self.tme1,
            Mailbox::Mailbox2 => self.tme2,
        }
    }

    /// The mailbox that a transmission goes to: the first empty one in the
    /// order 0, 1, 2.
    pub open spec fn lowest_empty(self) -> Option<Mailbox> {
        if self.tme0 {
            Some(Mailbox::Mailbox0)
        } else if self.tme1 {
            Some(Mailbox::Mailbox1)
        } else if self.tme2 {
            Some(Mailbox::Mailbox2)
        } else {
            None
        }
    }

    /// Picks the mailbox for the next frame: the empty mailbox with the lowest
    /// number, or none when all three are busy.
    pub fn select_mailbox(&self) -> (choice: Option<Mailbox>)
        ensures
            choice == self.lowest_empty(),
            match choice {
                Some(mailbox) => self.is_empty(mailbox) && forall|other: Mailbox|
                    self.is_empty(other) ==> mailbox.spec_index() <= other.spec_index(),
                None => forall|other: Mailbox| !self.is_empty(other),
            },
    {
        if self.tme0 {
            Some(Mailbox::Mailbox0)
        } else if self.tme1 {
            Some(Mailbox::Mailbox1)
        } else if self.tme2 {
            Some(Mailbox::Mailbox2)
        } else {
            None
        }
    }
}

/// Among the empty mailboxes the one with the lowest number is chosen, and
/// none is chosen only when none is empty.
pub proof fn lemma_lowest_empty_is_least(status: TxStatus)
    ensures
        match status.lowest_empty() {
            Some(mailbox) => status.is_empty(mailbox) && forall|other: Mailbox|
                status.is_empty(other) ==> mailbox.spec_index() <= other.spec_index(),
            None => forall|other: Mailbox| !status.is_empty(other),
        },
{
}

} // verus!
