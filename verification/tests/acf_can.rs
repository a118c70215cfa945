use open1722::acf::can::{Can, Variant, HEADER_LEN};
use open1722::Error;

#[test]
fn can_classic_frame_round_trip() {
    let mut can = Can::initialized(vec![0u8; HEADER_LEN + 8]).unwrap();
    can.create_acf_message(0x1AB, &[0x11, 0x22], Variant::Classic).unwrap();
    // create_acf_message resets the header, so set the bus id after it.
    can.set_bus_id(4);

    assert_eq!(can.bus_id(), 4);
    assert_eq!(can.identifier(), 0x1AB);
    assert!(!can.is_fd_format());
    assert!(!can.is_extended());
    assert_eq!(can.payload(), &[0x11, 0x22]);
    assert!(can.is_valid());
}

#[test]
fn fd_frame_marks_format_and_extended_id() {
    let mut can = Can::initialized(vec![0u8; HEADER_LEN + 16]).unwrap();
    can.create_acf_message(0x1234_5678, &[0xAA; 8], Variant::Fd).unwrap();

    assert!(can.is_fd_format());
    assert!(can.is_extended());
    assert_eq!(can.payload(), &[0xAA; 8]);
}

#[test]
fn can_flag_setters_round_trip() {
    let mut can = Can::initialized(vec![0u8; HEADER_LEN]).unwrap();

    can.set_message_timestamp_valid(true);
    can.set_remote_frame(true);
    can.set_extended(true);
    can.set_bit_rate_switched(true);
    can.set_fd_format(true);
    can.set_error_state_indicator(true);

    assert!(can.is_message_timestamp_valid());
    assert!(can.is_remote_frame());
    assert!(can.is_extended());
    assert!(can.is_bit_rate_switched());
    assert!(can.is_fd_format());
    assert!(can.is_error_state_indicator());

    can.set_message_timestamp_valid(false);
    assert!(!can.is_message_timestamp_valid());
}

#[test]
fn create_rejects_undersized_buffer() {
    let mut can = Can::initialized(vec![0u8; HEADER_LEN + 1]).unwrap();
    let err = can.create_acf_message(0x10, &[0; 8], Variant::Classic).unwrap_err();
    assert!(matches!(err, Error::BufferTooSmall { .. }));
}

#[test]
fn new_rejects_short_buffer() {
    assert!(matches!(
        Can::new(vec![0u8; HEADER_LEN - 1]),
        Err(Error::BufferTooSmall { .. })
    ));
}

/// Every payload length 0..8: the pad and length fields encode the right
/// values for each alignment.
#[test]
fn payload_sweep_sets_pad_and_length() {
    let payload = [0u8, 1, 2, 3, 4, 5, 6, 7];
    for len in 0..=payload.len() {
        let mut can = Can::initialized(vec![0u8; HEADER_LEN + 16]).unwrap();
        can.create_acf_message(0x123, &payload[..len], Variant::Classic).unwrap();

        assert_eq!(can.payload(), &payload[..len], "len = {len}");

        // Pad field is the 2-bit count of trailing pad bytes (0..=3).
        let expected_pad = ((4 - (len % 4)) & 0x3) as u8;
        assert_eq!(can.pad(), expected_pad, "len = {len}");

        // ACF length includes header (4 quadlets) plus padded payload.
        let expected_len = 4 + len.div_ceil(4);
        assert_eq!(can.acf_msg_length() as usize, expected_len, "len = {len}");
    }
}

#[test]
fn can_is_valid_corruption_cases() {
    // A header that was only initialized declares a length of zero, shorter
    // than its own header: not a valid frame.
    let can = Can::initialized(vec![0u8; 64]).unwrap();
    assert!(!can.is_valid());

    // A properly-formed classic CAN frame with an 8-byte payload is valid.
    let mut can = Can::initialized(vec![0u8; 64]).unwrap();
    can.create_acf_message(0x123, &[0, 1, 2, 3, 4, 5, 6, 7], Variant::Classic).unwrap();
    assert!(can.is_valid());

    // Zeroed buffer: ACF type byte is wrong (not CAN).
    let can = Can::new(vec![0u8; 64]).unwrap();
    assert!(!can.is_valid());

    // AcfMsgLength = 6 quadlets (24 bytes), buffer holds 25.
    // Payload = 24 - 16 header = 8 bytes (classic max).
    let mut can = Can::initialized(vec![0u8; 64]).unwrap();
    can.set_acf_msg_length(6);
    let backing = can.into_inner();
    let can = Can::new(backing[..25].to_vec()).unwrap();
    assert!(can.is_valid());

    // Classic CAN frames cannot carry more than 8 payload bytes.
    let mut can = Can::initialized(vec![0u8; 64]).unwrap();
    can.set_fd_format(false);
    can.set_acf_msg_length(4 + 3); // 12-byte payload declared
    assert!(!can.is_valid());
}

/// Low-level talker path: payload bytes first, then finalize the
/// length/pad fields.
#[test]
fn set_payload_then_set_payload_length() {
    let mut can = Can::initialized(vec![0u8; HEADER_LEN + 8]).unwrap();
    can.set_identifier(0x456);
    can.set_payload(&[0xDE, 0xAD, 0xBE, 0xEF, 0x01]).unwrap();
    can.set_payload_length(5).unwrap();

    assert_eq!(can.payload(), &[0xDE, 0xAD, 0xBE, 0xEF, 0x01]);
    assert_eq!(can.pad(), 3);
    assert_eq!(can.acf_msg_length(), (HEADER_LEN as u16 + 8) / 4);
    assert_eq!(can.message_length(), HEADER_LEN as u16 + 8);
    assert!(can.is_valid());
}
