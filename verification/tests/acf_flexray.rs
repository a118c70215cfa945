use open1722::acf::flexray::{FlexRay, HEADER_LEN};
use open1722::{AcfMsgType, Error};

#[test]
fn init_sets_flexray_acf_type() {
    let buf = FlexRay::initialized(vec![0u8; HEADER_LEN]).unwrap().into_inner();
    let expected = AcfMsgType::FlexRay.as_u8() << 1;
    assert_eq!(buf[0] & 0xFE, expected);
}

#[test]
fn flexray_header_round_trip() {
    let mut frame = FlexRay::initialized(vec![0u8; HEADER_LEN + 8]).unwrap();
    frame.set_bus_id(7);
    frame.set_channel(2);
    frame.set_frame_id(0x3FF);
    frame.set_cycle(15);
    frame.set_message_timestamp(0x0102_0304_0506_0708);
    frame.set_message_timestamp_valid(true);
    frame.set_sync_frame(true);

    assert_eq!(frame.bus_id(), 7);
    assert_eq!(frame.channel(), 2);
    assert_eq!(frame.frame_id(), 0x3FF);
    assert_eq!(frame.cycle(), 15);
    assert_eq!(frame.message_timestamp(), 0x0102_0304_0506_0708);
    assert!(frame.is_message_timestamp_valid());
    assert!(frame.is_sync_frame());
    assert!(!frame.is_startup_frame());
}

#[test]
fn flexray_rejects_short_buffer() {
    assert!(matches!(
        FlexRay::new(vec![0u8; HEADER_LEN - 1]),
        Err(Error::BufferTooSmall { .. })
    ));
}

#[test]
fn flexray_is_valid_corruption_cases() {
    // Only initialized: a declared length of zero is shorter than the header.
    let frame = FlexRay::initialized(vec![0u8; 64]).unwrap();
    assert!(!frame.is_valid());

    // A frame finalized with an empty payload is valid.
    let mut frame = FlexRay::initialized(vec![0u8; 64]).unwrap();
    frame.set_payload_length(0).unwrap();
    assert!(frame.is_valid());

    // The FlexRay ACF type is 0, so a zeroed buffer would pass the type
    // check; use a different type to exercise the type-mismatch branch.
    let mut wrong_type = vec![0u8; 64];
    wrong_type[0] = AcfMsgType::Can.as_u8() << 1;
    let frame = FlexRay::new(wrong_type).unwrap();
    assert!(!frame.is_valid());

    // Header claims 6 quadlets (24 bytes), buffer holds 16.
    let mut malformed = vec![0u8; HEADER_LEN];
    malformed[0] = AcfMsgType::FlexRay.as_u8() << 1;
    malformed[1] = 6;
    let frame = FlexRay::new(malformed).unwrap();
    assert!(!frame.is_valid());
}
