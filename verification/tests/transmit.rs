use can_driver::{
    Can, CanFrame, Command, Error, Identifier, Mailbox, ModeStatus, Progress, RxPin, TxPin,
    TxStatus,
};

struct Peripheral;

struct TxLine;

struct RxLine;

impl TxPin<Peripheral> for TxLine {}

impl RxPin<Peripheral> for RxLine {}

fn controller() -> Can<Peripheral, (TxLine, RxLine)> {
    let (bringup, _) = Can::can(Peripheral, (TxLine, RxLine), 500_000, 8_000_000);
    let awake = match bringup.poll(ModeStatus { slak: false, inak: false }).0 {
        Progress::Pending(next) => next,
        Progress::Ready(_) => panic!("initialization mode was not entered"),
    };
    let timed = match awake.poll(ModeStatus { slak: false, inak: true }).0 {
        Progress::Pending(next) => next,
        Progress::Ready(_) => panic!("initialization mode was not left"),
    };
    match timed.poll(ModeStatus { slak: false, inak: false }).0 {
        Progress::Pending(_) => panic!("normal mode was not reached"),
        Progress::Ready(can) => can,
    }
}

fn status(tme0: bool, tme1: bool, tme2: bool) -> TxStatus {
    TxStatus { tme0, tme1, tme2 }
}

#[test]
fn lowest_empty_mailbox_is_chosen() {
    assert_eq!(status(true, true, true).select_mailbox(), Some(Mailbox::Mailbox0));
    assert_eq!(status(true, true, false).select_mailbox(), Some(Mailbox::Mailbox0));
    assert_eq!(status(true, false, true).select_mailbox(), Some(Mailbox::Mailbox0));
    assert_eq!(status(true, false, false).select_mailbox(), Some(Mailbox::Mailbox0));
    assert_eq!(status(false, true, true).select_mailbox(), Some(Mailbox::Mailbox1));
    assert_eq!(status(false, true, false).select_mailbox(), Some(Mailbox::Mailbox1));
    assert_eq!(status(false, false, true).select_mailbox(), Some(Mailbox::Mailbox2));
    assert_eq!(status(false, false, false).select_mailbox(), None);
}

#[test]
fn selection_is_repeatable() {
    let seen = status(false, true, true);
    assert_eq!(seen.select_mailbox(), seen.select_mailbox());
    assert_eq!(seen.select_mailbox(), Some(Mailbox::Mailbox1));
}

#[test]
fn mailboxes_are_numbered_from_zero() {
    assert_eq!(Mailbox::Mailbox0.index(), 0);
    assert_eq!(Mailbox::Mailbox1.index(), 1);
    assert_eq!(Mailbox::Mailbox2.index(), 2);
}

#[test]
fn standard_frame_is_loaded_into_the_first_mailbox() {
    let mut can = controller();
    let frame = CanFrame::new(0x123, &[1, 2, 3], false, false);
    let commands = can.tx(status(true, true, true), &frame).unwrap();
    let mailbox = Mailbox::Mailbox0;
    assert_eq!(
        commands,
        vec![
            Command::WriteLength { mailbox, dlc: 3, tgt: false },
            Command::WriteIdentifier { mailbox, id: Identifier::Standard(0x123), remote: false },
            Command::WriteDataLow { mailbox, data0: 1, data1: 2, data2: 3, data3: 0 },
            Command::WriteDataHigh { mailbox, data4: 0, data5: 0, data6: 0, data7: 0 },
            Command::RequestTransmit { mailbox },
        ]
    );
}

#[test]
fn extended_frame_is_loaded_into_the_second_mailbox() {
    let mut can = controller();
    let frame = CanFrame::new(0x1ABC_DEF0, &[1, 2, 3, 4, 5, 6, 7, 8], false, true);
    let commands = can.tx(status(false, true, true), &frame).unwrap();
    let mailbox = Mailbox::Mailbox1;
    assert_eq!(
        commands,
        vec![
            Command::WriteLength { mailbox, dlc: 8, tgt: false },
            Command::WriteIdentifier {
                mailbox,
                id: Identifier::Extended(0x1ABC_DEF0),
                remote: false
            },
            Command::WriteDataLow { mailbox, data0: 1, data1: 2, data2: 3, data3: 4 },
            Command::WriteDataHigh { mailbox, data4: 5, data5: 6, data6: 7, data7: 8 },
            Command::RequestTransmit { mailbox },
        ]
    );
}

#[test]
fn remote_frame_is_loaded_into_the_third_mailbox() {
    let mut can = controller();
    let frame = CanFrame::new(0x7FE, &[], true, false);
    let commands = can.tx(status(false, false, true), &frame).unwrap();
    let mailbox = Mailbox::Mailbox2;
    assert_eq!(
        commands,
        vec![
            Command::WriteLength { mailbox, dlc: 0, tgt: false },
            Command::WriteIdentifier { mailbox, id: Identifier::Standard(0x7FE), remote: true },
            Command::WriteDataLow { mailbox, data0: 0, data1: 0, data2: 0, data3: 0 },
            Command::WriteDataHigh { mailbox, data4: 0, data5: 0, data6: 0, data7: 0 },
            Command::RequestTransmit { mailbox },
        ]
    );
}

#[test]
fn all_mailboxes_busy_is_reported() {
    let mut can = controller();
    let frame = CanFrame::new(0x123, &[1, 2, 3], false, false);
    assert_eq!(can.tx(status(false, false, false), &frame), Err(Error::MailboxUnavailable));
}

#[test]
fn busy_mailboxes_do_not_stop_a_later_transmission() {
    let mut can = controller();
    let frame = CanFrame::new(0x10, &[0xAA], false, false);
    assert_eq!(can.tx(status(false, false, false), &frame), Err(Error::MailboxUnavailable));
    let commands = can.tx(status(false, false, true), &frame).unwrap();
    assert_eq!(commands.len(), 5);
    assert_eq!(commands[4], Command::RequestTransmit { mailbox: Mailbox::Mailbox2 });
}

#[test]
fn transmit_request_comes_last() {
    let mut can = controller();
    let frame = CanFrame::new(0x10, &[0xAA, 0xBB, 0xCC, 0xDD, 0xEE], true, true);
    for &(seen, mailbox) in &[
        (status(true, false, false), Mailbox::Mailbox0),
        (status(false, true, false), Mailbox::Mailbox1),
        (status(false, false, true), Mailbox::Mailbox2),
    ] {
        let commands = can.tx(seen, &frame).unwrap();
        assert_eq!(commands.len(), 5);
        assert_eq!(commands.last(), Some(&Command::RequestTransmit { mailbox }));
        assert!(commands[..4].iter().all(|c| !matches!(c, Command::RequestTransmit { .. })));
    }
}

#[test]
fn both_data_registers_are_written_whatever_the_length() {
    let mut can = controller();
    let frame = CanFrame::new(0x10, &[0xAA, 0xBB, 0xCC, 0xDD, 0xEE], false, false);
    let commands = can.tx(status(true, true, true), &frame).unwrap();
    let mailbox = Mailbox::Mailbox0;
    assert_eq!(commands[0], Command::WriteLength { mailbox, dlc: 5, tgt: false });
    assert_eq!(
        commands[2],
        Command::WriteDataLow { mailbox, data0: 0xAA, data1: 0xBB, data2: 0xCC, data3: 0xDD }
    );
    assert_eq!(
        commands[3],
        Command::WriteDataHigh { mailbox, data4: 0xEE, data5: 0, data6: 0, data7: 0 }
    );
}

#[test]
fn same_status_and_frame_give_the_same_writes() {
    let mut can = controller();
    let frame = CanFrame::new(0x42, &[1, 2], false, true);
    let first = can.tx(status(false, true, true), &frame);
    let second = can.tx(status(false, true, true), &frame);
    assert_eq!(first, second);
}
