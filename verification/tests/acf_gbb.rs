use open1722::acf::gbb::{Gbb, HEADER_LEN};
use open1722::{AcfMsgType, Error};

#[test]
fn init_sets_gbb_acf_type() {
    let buf = Gbb::initialized(vec![0u8; HEADER_LEN]).unwrap().into_inner();
    let expected = AcfMsgType::ByteBus.as_u8() << 1;
    assert_eq!(buf[0] & 0xFE, expected);
    assert_eq!(Gbb::new(buf.clone()).unwrap().acf_msg_length(), 4);
}

#[test]
fn gbb_header_round_trip() {
    let mut gbb = Gbb::initialized(vec![0u8; HEADER_LEN]).unwrap();
    gbb.set_message_timestamp_valid(true);
    gbb.set_byte_bus_id(0x123);
    gbb.set_message_timestamp(0x1122_3344_5566_7788);
    gbb.set_evt(0x7);
    gbb.set_handshake(true);
    gbb.set_chip_select(false);
    gbb.set_transaction_num(0x99);
    gbb.set_op(true);
    gbb.set_response(false);
    gbb.set_error(true);
    gbb.set_more_segments(false);
    gbb.set_read_size(0x800);

    assert!(gbb.is_message_timestamp_valid());
    assert_eq!(gbb.byte_bus_id(), 0x123);
    assert_eq!(gbb.message_timestamp(), 0x1122_3344_5566_7788);
    assert_eq!(gbb.evt(), 0x7);
    assert!(gbb.is_handshake());
    assert!(!gbb.is_chip_select());
    assert_eq!(gbb.transaction_num(), 0x99);
    assert!(gbb.is_op());
    assert!(!gbb.is_response());
    assert!(gbb.is_error());
    assert!(!gbb.is_more_segments());
    assert_eq!(gbb.read_size(), 0x800);

    gbb.set_message_timestamp_valid(false);
    assert!(!gbb.is_message_timestamp_valid());
}

#[test]
fn gbb_rejects_short_buffer() {
    assert!(matches!(
        Gbb::new(vec![0u8; HEADER_LEN - 1]),
        Err(Error::BufferTooSmall { .. })
    ));
}

#[test]
fn gbb_set_payload_length_sets_pad_and_msg_length() {
    let mut gbb = Gbb::initialized(vec![0u8; HEADER_LEN + 16]).unwrap();
    // 1-byte payload needs 3 bytes of padding: total = 16 + 1 + 3 = 20
    // bytes = 5 quadlets.
    gbb.set_payload_length(1);
    assert_eq!(gbb.payload_length(), 1);
    assert_eq!(gbb.pad(), 3);
    assert_eq!(gbb.acf_msg_length(), 5);
    assert_eq!(gbb.message_length(), 20);
}
