use open1722::acf::lin::{Lin, HEADER_LEN};
use open1722::{AcfMsgType, Error};

#[test]
fn init_sets_lin_acf_type() {
    let buf = Lin::initialized(vec![0u8; HEADER_LEN]).unwrap().into_inner();
    // First byte after init is type<<1 | length_high_bit.
    let expected = AcfMsgType::Lin.as_u8() << 1;
    assert_eq!(buf[0] & 0xFE, expected);
}

#[test]
fn lin_header_round_trip() {
    let mut lin = Lin::initialized(vec![0u8; HEADER_LEN + 8]).unwrap();
    lin.set_bus_id(3);
    lin.set_identifier(0x2A);
    lin.set_message_timestamp(0x0011_2233_4455_6677);
    lin.set_message_timestamp_valid(true);

    assert_eq!(lin.bus_id(), 3);
    assert_eq!(lin.identifier(), 0x2A);
    assert_eq!(lin.message_timestamp(), 0x0011_2233_4455_6677);
    assert!(lin.is_message_timestamp_valid());
}

#[test]
fn lin_rejects_short_buffer() {
    assert!(matches!(
        Lin::new(vec![0u8; HEADER_LEN - 1]),
        Err(Error::BufferTooSmall { .. })
    ));
}

#[test]
fn lin_is_valid_corruption_cases() {
    // Only initialized: a declared length of zero is shorter than the header.
    let lin = Lin::initialized(vec![0u8; 64]).unwrap();
    assert!(!lin.is_valid());

    // A frame finalized with an empty payload is valid.
    let mut lin = Lin::initialized(vec![0u8; 64]).unwrap();
    lin.set_payload_length(0).unwrap();
    assert!(lin.is_valid());

    let lin = Lin::new(vec![0u8; 64]).unwrap();
    assert!(!lin.is_valid());

    // Header declares 5 quadlets (20 bytes), buffer holds 12.
    let mut malformed = vec![0u8; HEADER_LEN];
    malformed[0] = AcfMsgType::Lin.as_u8() << 1;
    malformed[1] = 5;
    let lin = Lin::new(malformed).unwrap();
    assert!(!lin.is_valid());
}

/// Toggle round-trip for the `mtv` flag (disable after enable).
#[test]
fn message_timestamp_valid_toggle() {
    let mut lin = Lin::initialized(vec![0u8; HEADER_LEN]).unwrap();
    lin.set_message_timestamp_valid(true);
    assert!(lin.is_message_timestamp_valid());
    lin.set_message_timestamp_valid(false);
    assert!(!lin.is_message_timestamp_valid());
}

#[test]
fn lin_create_acf_message_round_trip() {
    let mut lin = Lin::initialized(vec![0u8; HEADER_LEN + 8]).unwrap();
    lin.create_acf_message(3, 0x2A, 0x1234, &[0xAA, 0xBB, 0xCC]).unwrap();

    assert_eq!(lin.bus_id(), 3);
    assert_eq!(lin.identifier(), 0x2A);
    assert_eq!(lin.message_timestamp(), 0x1234);
    assert_eq!(lin.payload(), &[0xAA, 0xBB, 0xCC]);
    assert_eq!(lin.payload_length(), 3);
    assert_eq!(lin.pad(), 1);
    assert_eq!(lin.acf_msg_length(), (HEADER_LEN as u16 + 4) / 4);
    assert!(lin.is_valid());
}
