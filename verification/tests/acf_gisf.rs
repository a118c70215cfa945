use open1722::acf::gisf::{Gisf, HEADER_LEN};
use open1722::{AcfMsgType, Error};

#[test]
fn init_sets_gisf_acf_type() {
    let buf = Gisf::initialized(vec![0u8; HEADER_LEN]).unwrap().into_inner();
    let expected = AcfMsgType::Gisf.as_u8() << 1;
    assert_eq!(buf[0] & 0xFE, expected);
    assert_eq!(Gisf::new(buf.clone()).unwrap().acf_msg_length(), 0);
}

#[test]
fn gisf_header_round_trip() {
    let mut gisf = Gisf::initialized(vec![0u8; HEADER_LEN]).unwrap();
    gisf.set_message_timestamp_valid(true);
    gisf.set_image_sensor_id(0x7FF);
    gisf.set_message_timestamp(0xCAFE_BABE_DEAD_BEEF);
    gisf.set_end_line(true);
    gisf.set_timestamp_line(false);
    gisf.set_end_frame(true);
    gisf.set_evt(0x5);
    gisf.set_begin_frame(true);
    gisf.set_line_type_id(0x1F);
    gisf.set_evt2(0xAB);
    gisf.set_intra_line_seq_num(0x44);
    gisf.set_line_number(0xFFFF);

    assert!(gisf.is_message_timestamp_valid());
    assert_eq!(gisf.image_sensor_id(), 0x7FF);
    assert_eq!(gisf.message_timestamp(), 0xCAFE_BABE_DEAD_BEEF);
    assert!(gisf.is_end_line());
    assert!(!gisf.is_timestamp_line());
    assert!(gisf.is_end_frame());
    assert_eq!(gisf.evt(), 0x5);
    assert!(gisf.is_begin_frame());
    assert_eq!(gisf.line_type_id(), 0x1F);
    assert_eq!(gisf.evt2(), 0xAB);
    assert_eq!(gisf.intra_line_seq_num(), 0x44);
    assert_eq!(gisf.line_number(), 0xFFFF);

    gisf.set_message_timestamp_valid(false);
    assert!(!gisf.is_message_timestamp_valid());
}

#[test]
fn gisf_rejects_short_buffer() {
    assert!(matches!(
        Gisf::new(vec![0u8; HEADER_LEN - 1]),
        Err(Error::BufferTooSmall { .. })
    ));
}

#[test]
fn gisf_set_payload_length_sets_pad_and_msg_length() {
    let mut gisf = Gisf::initialized(vec![0u8; HEADER_LEN + 16]).unwrap();
    // 6-byte payload needs 2 bytes of padding: total = 20 + 6 + 2 = 28
    // bytes = 7 quadlets.
    gisf.set_payload_length(6).unwrap();
    assert_eq!(gisf.payload_length(), 6);
    assert_eq!(gisf.pad(), 2);
    assert_eq!(gisf.acf_msg_length(), 7);
    assert_eq!(gisf.message_length(), 28);
}

#[test]
fn gisf_create_acf_message_round_trip() {
    let mut gisf = Gisf::initialized(vec![0u8; HEADER_LEN + 8]).unwrap();
    gisf.create_acf_message(0x0123, &[0x11, 0x22, 0x33]).unwrap();

    assert_eq!(gisf.image_sensor_id(), 0x0123);
    assert_eq!(gisf.payload(), &[0x11, 0x22, 0x33]);
    assert_eq!(gisf.payload_length(), 3);
    assert!(gisf.is_valid());
}

#[test]
fn gisf_is_valid_corruption_cases() {
    // Only initialized: a declared length of zero is shorter than the header.
    let gisf = Gisf::initialized(vec![0u8; 64]).unwrap();
    assert!(!gisf.is_valid());

    // Zeroed buffer: ACF type byte is wrong (not GISF).
    let gisf = Gisf::new(vec![0u8; 64]).unwrap();
    assert!(!gisf.is_valid());
}
