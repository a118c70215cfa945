use open1722::acf::can::Variant;
use open1722::acf::can_v2::{CanV2, HEADER_LEN};
use open1722::{AcfMsgType, Error};

#[test]
fn init_sets_can_v2_acf_type() {
    let buf = CanV2::initialized(vec![0u8; HEADER_LEN]).unwrap().into_inner();
    let expected = AcfMsgType::CanV2.as_u8() << 1;
    assert_eq!(buf[0] & 0xFE, expected);
    assert_eq!(CanV2::new(buf.clone()).unwrap().acf_msg_length(), 0);
}

#[test]
fn can_v2_header_round_trip() {
    let mut can = CanV2::initialized(vec![0u8; HEADER_LEN]).unwrap();
    can.set_message_timestamp_valid(true);
    can.set_remote_frame(false);
    can.set_extended(true);
    can.set_bus_id(0x400);
    can.set_message_timestamp(0x1122_3344_5566_7788);
    can.set_bit_rate_switched(true);
    can.set_fd_format(true);
    can.set_error_state_indicator(false);
    can.set_identifier(0x1FFF_FFFF);

    assert!(can.is_message_timestamp_valid());
    assert!(!can.is_remote_frame());
    assert!(can.is_extended());
    assert_eq!(can.bus_id(), 0x400);
    assert_eq!(can.message_timestamp(), 0x1122_3344_5566_7788);
    assert!(can.is_bit_rate_switched());
    assert!(can.is_fd_format());
    assert!(!can.is_error_state_indicator());
    assert_eq!(can.identifier(), 0x1FFF_FFFF);

    can.set_message_timestamp_valid(false);
    assert!(!can.is_message_timestamp_valid());
}

#[test]
fn can_v2_rejects_short_buffer() {
    assert!(matches!(
        CanV2::new(vec![0u8; HEADER_LEN - 1]),
        Err(Error::BufferTooSmall { .. })
    ));
}

#[test]
fn can_v2_set_payload_length_sets_pad_and_msg_length() {
    let mut can = CanV2::initialized(vec![0u8; HEADER_LEN + 16]).unwrap();
    // 7-byte payload needs 1 byte of padding: total = 16 + 7 + 1 = 24
    // bytes = 6 quadlets.
    can.set_payload_length(7).unwrap();
    assert_eq!(can.payload_length(), 7);
    assert_eq!(can.pad(), 1);
    assert_eq!(can.acf_msg_length(), 6);
    assert_eq!(can.message_length(), 24);
}

#[test]
fn can_v2_create_acf_message_round_trip() {
    let mut can = CanV2::initialized(vec![0u8; HEADER_LEN + 8]).unwrap();
    can.create_acf_message(0x1234_5678, &[0xAA; 8], Variant::Fd).unwrap();

    assert!(can.is_extended());
    assert!(can.is_fd_format());
    assert_eq!(can.identifier(), 0x1234_5678);
    assert_eq!(can.payload(), &[0xAA; 8]);
    assert!(can.is_valid());
}

#[test]
fn can_v2_is_valid_corruption_cases() {
    // Only initialized: a declared length of zero is shorter than the header.
    let can = CanV2::initialized(vec![0u8; 64]).unwrap();
    assert!(!can.is_valid());

    // Zeroed buffer: ACF type byte is wrong (not CanV2).
    let can = CanV2::new(vec![0u8; 64]).unwrap();
    assert!(!can.is_valid());
}
