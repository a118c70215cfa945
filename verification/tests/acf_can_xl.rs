use open1722::acf::can_xl::{CanXl, HEADER_LEN};
use open1722::{AcfMsgType, Error};

#[test]
fn init_sets_can_xl_acf_type() {
    let buf = CanXl::initialized(vec![0u8; HEADER_LEN]).unwrap().into_inner();
    let expected = AcfMsgType::CanXl.as_u8() << 1;
    assert_eq!(buf[0] & 0xFE, expected);
    assert_eq!(CanXl::new(buf.clone()).unwrap().acf_msg_length(), 0);
}

#[test]
fn can_xl_header_round_trip() {
    let mut can = CanXl::initialized(vec![0u8; HEADER_LEN]).unwrap();
    can.set_message_timestamp_valid(true);
    can.set_bus_id(0x7FF);
    can.set_message_timestamp(0x0011_2233_4455_6677);
    can.set_vcid(0xAB);
    can.set_sdt(0xCD);
    can.set_rrs(true);
    can.set_sec(false);
    can.set_priority_id(0x3FF);
    can.set_acceptance_field(0xDEAD_BEEF);
    can.set_transaction_num(0x55);
    can.set_more_segments(true);
    can.set_segment_num(0xFFF);

    assert!(can.is_message_timestamp_valid());
    assert_eq!(can.bus_id(), 0x7FF);
    assert_eq!(can.message_timestamp(), 0x0011_2233_4455_6677);
    assert_eq!(can.vcid(), 0xAB);
    assert_eq!(can.sdt(), 0xCD);
    assert!(can.is_rrs());
    assert!(!can.is_sec());
    assert_eq!(can.priority_id(), 0x3FF);
    assert_eq!(can.acceptance_field(), 0xDEAD_BEEF);
    assert_eq!(can.transaction_num(), 0x55);
    assert!(can.is_more_segments());
    assert_eq!(can.segment_num(), 0xFFF);

    can.set_message_timestamp_valid(false);
    assert!(!can.is_message_timestamp_valid());
}

#[test]
fn can_xl_rejects_short_buffer() {
    assert!(matches!(
        CanXl::new(vec![0u8; HEADER_LEN - 1]),
        Err(Error::BufferTooSmall { .. })
    ));
}

#[test]
fn can_xl_set_payload_length_sets_pad_and_msg_length() {
    let mut can = CanXl::initialized(vec![0u8; HEADER_LEN + 16]).unwrap();
    // 4-byte payload needs 0 bytes of padding: total = 24 + 4 = 28
    // bytes = 7 quadlets.
    can.set_payload_length(4).unwrap();
    assert_eq!(can.payload_length(), 4);
    assert_eq!(can.pad(), 0);
    assert_eq!(can.acf_msg_length(), 7);
    assert_eq!(can.message_length(), 28);
}

#[test]
fn can_xl_create_acf_message_round_trip() {
    let mut can = CanXl::initialized(vec![0u8; HEADER_LEN + 8]).unwrap();
    can.create_acf_message(0x123, 0xAB_CD_EF, 0x42, &[0x11, 0x22]).unwrap();

    assert_eq!(can.priority_id(), 0x123);
    assert_eq!(can.acceptance_field(), 0xAB_CD_EF);
    assert_eq!(can.sdt(), 0x42);
    assert_eq!(can.payload(), &[0x11, 0x22]);
    assert!(can.is_valid());
}

#[test]
fn can_xl_is_valid_corruption_cases() {
    // Only initialized: a declared length of zero is shorter than the header.
    let can = CanXl::initialized(vec![0u8; 64]).unwrap();
    assert!(!can.is_valid());

    // Zeroed buffer: ACF type byte is wrong (not CanXl).
    let can = CanXl::new(vec![0u8; 64]).unwrap();
    assert!(!can.is_valid());
}
