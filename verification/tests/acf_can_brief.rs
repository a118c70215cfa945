use open1722::acf::can::Variant;
use open1722::acf::can_brief::{CanBrief, HEADER_LEN};
use open1722::{AcfMsgType, Error};

#[test]
fn init_sets_can_brief_acf_type() {
    let buf = CanBrief::initialized(vec![0u8; HEADER_LEN]).unwrap().into_inner();
    let expected = AcfMsgType::CanBrief.as_u8() << 1;
    assert_eq!(buf[0] & 0xFE, expected);
}

#[test]
fn can_brief_classic_frame_round_trip() {
    let mut can = CanBrief::initialized(vec![0u8; HEADER_LEN + 8]).unwrap();
    can.set_bus_id(2);
    can.create_acf_message(0x1AB, &[0x11, 0x22], Variant::Classic).unwrap();

    assert_eq!(can.bus_id(), 2);
    assert_eq!(can.identifier(), 0x1AB);
    assert!(!can.is_fd_format());
    assert_eq!(can.payload(), &[0x11, 0x22]);
    assert!(can.is_valid());
}

#[test]
fn can_brief_flag_setters_round_trip() {
    let mut can = CanBrief::initialized(vec![0u8; HEADER_LEN]).unwrap();

    can.set_message_timestamp_valid(true);
    can.set_remote_frame(true);
    can.set_extended(true);
    can.set_bit_rate_switched(true);
    can.set_fd_format(true);
    can.set_error_state_indicator(true);

    assert!(can.is_message_timestamp_valid());
    assert!(can.is_remote_frame());
    assert!(can.is_extended());
    assert!(can.is_bit_rate_switched());
    assert!(can.is_fd_format());
    assert!(can.is_error_state_indicator());

    can.set_message_timestamp_valid(false);
    assert!(!can.is_message_timestamp_valid());
}

#[test]
fn can_brief_rejects_short_buffer() {
    assert!(matches!(
        CanBrief::new(vec![0u8; HEADER_LEN - 1]),
        Err(Error::BufferTooSmall { .. })
    ));
}
