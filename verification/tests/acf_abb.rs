use open1722::acf::abb::{Abb, HEADER_LEN};
use open1722::{AcfMsgType, Error};

#[test]
fn init_sets_abb_acf_type() {
    let buf = Abb::initialized(vec![0u8; HEADER_LEN]).unwrap().into_inner();
    let expected = AcfMsgType::ByteBusBrief.as_u8() << 1;
    assert_eq!(buf[0] & 0xFE, expected);
    // Init zeroes the header without stamping a length; the length
    // is finalized by set_payload_length / create_acf_message.
    assert_eq!(Abb::new(buf.clone()).unwrap().acf_msg_length(), 0);
}

#[test]
fn abb_header_round_trip() {
    let mut abb = Abb::initialized(vec![0u8; HEADER_LEN + 8]).unwrap();
    abb.set_message_timestamp_valid(true);
    abb.set_byte_bus_id(0x7FF);
    abb.set_evt(0xA);
    abb.set_handshake(true);
    abb.set_chip_select(true);
    abb.set_transaction_num(0xAB);
    abb.set_op(true);
    abb.set_response(true);
    abb.set_error(true);
    abb.set_more_segments(true);
    abb.set_read_size(0xFFF);

    assert!(abb.is_message_timestamp_valid());
    assert_eq!(abb.byte_bus_id(), 0x7FF);
    assert_eq!(abb.evt(), 0xA);
    assert!(abb.is_handshake());
    assert!(abb.is_chip_select());
    assert_eq!(abb.transaction_num(), 0xAB);
    assert!(abb.is_op());
    assert!(abb.is_response());
    assert!(abb.is_error());
    assert!(abb.is_more_segments());
    assert_eq!(abb.read_size(), 0xFFF);
    assert_eq!(abb.segment_num(), 0xFFF);

    abb.set_message_timestamp_valid(false);
    assert!(!abb.is_message_timestamp_valid());
}

#[test]
fn abb_rejects_short_buffer() {
    assert!(matches!(
        Abb::new(vec![0u8; HEADER_LEN - 1]),
        Err(Error::BufferTooSmall { .. })
    ));
}

#[test]
fn abb_set_payload_length_sets_pad_and_msg_length() {
    let mut abb = Abb::initialized(vec![0u8; HEADER_LEN + 16]).unwrap();
    // 5-byte payload needs 3 bytes of padding to reach a quadlet
    // boundary: total = HEADER_LEN(8) + 5 + 3 = 16 bytes = 4 quadlets.
    abb.set_payload_length(5).unwrap();
    assert_eq!(abb.payload_length(), 5);
    assert_eq!(abb.pad(), 3);
    assert_eq!(abb.acf_msg_length(), 4);
    assert_eq!(abb.message_length(), 16);
    assert!(abb.is_valid());
}

#[test]
fn abb_is_valid_corruption_cases() {
    // A header that was only initialized declares a length of zero, shorter
    // than its own header, so it is not valid.
    let abb = Abb::initialized(vec![0u8; 64]).unwrap();
    assert!(!abb.is_valid());

    // Zeroed buffer: the ACF type is wrong (not ByteBusBrief).
    let abb = Abb::new(vec![0u8; 64]).unwrap();
    assert!(!abb.is_valid());

    // Declared message longer than the wrapping buffer.
    let mut abb = Abb::initialized(vec![0u8; 64]).unwrap();
    abb.set_acf_msg_length(7); // 28 bytes claimed, 16 available
    let backing = abb.into_inner();
    let view = Abb::new(backing[..HEADER_LEN + 8].to_vec()).unwrap();
    assert!(!view.is_valid());
}

#[test]
fn abb_create_acf_message_round_trip() {
    let mut abb = Abb::initialized(vec![0u8; HEADER_LEN + 8]).unwrap();
    abb.create_acf_message(0x123, true, 0x42, &[0xAA, 0xBB]).unwrap();

    assert_eq!(abb.byte_bus_id(), 0x123);
    assert!(abb.is_op());
    assert_eq!(abb.transaction_num(), 0x42);
    assert_eq!(abb.payload(), &[0xAA, 0xBB]);
    assert_eq!(abb.payload_length(), 2);
    assert_eq!(abb.pad(), 2);
    assert!(abb.is_valid());
}
