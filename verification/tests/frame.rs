use can_driver::frame::{CanFrame, Identifier};
use can_driver::Error;

#[test]
fn standard_frame_reads_back() {
    let frame = CanFrame::new(0x123, &[1, 2, 3], false, false);
    assert_eq!(frame.id(), 0x123);
    assert!(!frame.is_extended());
    assert!(!frame.is_rtr());
    assert_eq!(frame.data(), &[1, 2, 3]);
}

#[test]
fn extended_frame_reads_back() {
    let frame = CanFrame::new(0x1ABC_DEF0, &[0xDE, 0xAD, 0xBE, 0xEF], false, true);
    assert_eq!(frame.id(), 0x1ABC_DEF0);
    assert!(frame.is_extended());
    assert!(!frame.is_rtr());
    assert_eq!(frame.data(), &[0xDE, 0xAD, 0xBE, 0xEF]);
}

#[test]
fn remote_frame_reads_back() {
    let frame = CanFrame::new(0x55, &[], true, false);
    assert_eq!(frame.id(), 0x55);
    assert!(!frame.is_extended());
    assert!(frame.is_rtr());
    assert_eq!(frame.data(), &[] as &[u8]);
}

#[test]
fn every_flag_combination_reads_back() {
    for &rtr in &[false, true] {
        for &ext in &[false, true] {
            let frame = CanFrame::new(0x2A, &[9, 8], rtr, ext);
            assert_eq!(frame.id(), 0x2A);
            assert_eq!(frame.is_rtr(), rtr);
            assert_eq!(frame.is_extended(), ext);
            assert_eq!(frame.data(), &[9, 8]);
        }
    }
}

#[test]
fn data_has_exactly_the_given_length() {
    let bytes = [10u8, 11, 12, 13, 14, 15, 16, 17];
    for len in 0..=8usize {
        let frame = CanFrame::new(1, &bytes[..len], false, false);
        assert_eq!(frame.data().len(), len);
        assert_eq!(frame.data(), &bytes[..len]);
    }
}

#[test]
fn full_payload_is_kept() {
    let frame = CanFrame::new(0, &[1, 2, 3, 4, 5, 6, 7, 8], false, false);
    assert_eq!(frame.data(), &[1, 2, 3, 4, 5, 6, 7, 8]);
    assert_eq!(frame.buffer(), [1, 2, 3, 4, 5, 6, 7, 8]);
}

#[test]
fn buffer_is_padded_with_zeros() {
    let frame = CanFrame::new(0x123, &[0xFF, 0xFE, 0xFD], false, false);
    assert_eq!(frame.buffer(), [0xFF, 0xFE, 0xFD, 0, 0, 0, 0, 0]);
    let empty = CanFrame::new(0x123, &[], false, false);
    assert_eq!(empty.buffer(), [0; 8]);
}

#[test]
fn standard_identifier_stays_below_its_bound() {
    assert!(CanFrame::try_new(0, &[], false, false).is_ok());
    let highest = CanFrame::try_new(0x7FE, &[], false, false).unwrap();
    assert_eq!(highest.id(), 0x7FE);
    assert_eq!(CanFrame::try_new(0x7FF, &[], false, false).err(), Some(Error::InvalidFrameParameters));
    assert_eq!(CanFrame::try_new(0x800, &[], false, false).err(), Some(Error::InvalidFrameParameters));
    assert_eq!(CanFrame::try_new(u32::MAX, &[], false, false).err(), Some(Error::InvalidFrameParameters));
}

#[test]
fn extended_identifier_stays_below_its_bound() {
    let wide = CanFrame::try_new(0x7FF, &[], false, true).unwrap();
    assert_eq!(wide.id(), 0x7FF);
    let highest = CanFrame::try_new(0x1FFF_FFFE, &[], false, true).unwrap();
    assert_eq!(highest.id(), 0x1FFF_FFFE);
    assert_eq!(CanFrame::try_new(0x1FFF_FFFF, &[], false, true).err(), Some(Error::InvalidFrameParameters));
    assert_eq!(CanFrame::try_new(0x2000_0000, &[], false, true).err(), Some(Error::InvalidFrameParameters));
    assert_eq!(CanFrame::try_new(u32::MAX, &[], true, true).err(), Some(Error::InvalidFrameParameters));
}

#[test]
fn payload_of_nine_bytes_is_refused() {
    assert!(CanFrame::try_new(1, &[0; 8], false, false).is_ok());
    assert_eq!(CanFrame::try_new(1, &[0; 9], false, false).err(), Some(Error::InvalidFrameParameters));
    assert_eq!(CanFrame::try_new(1, &[0; 64], false, true).err(), Some(Error::InvalidFrameParameters));
}

#[test]
fn checked_construction_builds_the_same_frame() {
    let checked = CanFrame::try_new(0x321, &[4, 5, 6, 7], true, false).unwrap();
    let plain = CanFrame::new(0x321, &[4, 5, 6, 7], true, false);
    assert_eq!(checked.id(), plain.id());
    assert_eq!(checked.is_extended(), plain.is_extended());
    assert_eq!(checked.is_rtr(), plain.is_rtr());
    assert_eq!(checked.data(), plain.data());
    assert_eq!(checked.buffer(), plain.buffer());
}

#[test]
fn identifier_goes_to_the_field_of_its_mode() {
    let standard = CanFrame::new(0x7FE, &[], false, false);
    assert_eq!(standard.identifier(), Identifier::Standard(0x7FE));
    let extended = CanFrame::new(0x7FE, &[], false, true);
    assert_eq!(extended.identifier(), Identifier::Extended(0x7FE));
    let wide = CanFrame::new(0x1FFF_FFFE, &[], false, true);
    assert_eq!(wide.identifier(), Identifier::Extended(0x1FFF_FFFE));
}

#[test]
fn source_slice_is_copied() {
    let mut bytes = [1u8, 2, 3];
    let frame = CanFrame::new(7, &bytes, false, false);
    bytes[0] = 99;
    assert_eq!(frame.data(), &[1, 2, 3]);
    assert_eq!(bytes[0], 99);
}
