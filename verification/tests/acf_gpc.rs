use open1722::acf::gpc::{Gpc, HEADER_LEN};
use open1722::{AcfMsgType, Error};

#[test]
fn init_sets_gpc_acf_type() {
    let buf = Gpc::initialized(vec![0u8; HEADER_LEN]).unwrap().into_inner();
    let expected = AcfMsgType::Gpc.as_u8() << 1;
    assert_eq!(buf[0] & 0xFE, expected);
}

#[test]
fn message_id_round_trip() {
    let mut gpc = Gpc::initialized(vec![0u8; HEADER_LEN]).unwrap();
    gpc.set_message_id(0xDEAD_BEEF_CAFE);
    assert_eq!(gpc.message_id(), 0xDEAD_BEEF_CAFE);
}

#[test]
fn gpc_rejects_short_buffer() {
    assert!(matches!(
        Gpc::new(vec![0u8; HEADER_LEN - 1]),
        Err(Error::BufferTooSmall { .. })
    ));
}

#[test]
fn gpc_is_valid_corruption_cases() {
    // Only initialized: a declared length of zero is shorter than the header.
    let gpc = Gpc::initialized(vec![0u8; 64]).unwrap();
    assert!(!gpc.is_valid());

    // A frame finalized with an empty payload is valid.
    let mut gpc = Gpc::initialized(vec![0u8; 64]).unwrap();
    gpc.set_payload_length(0).unwrap();
    assert!(gpc.is_valid());

    let gpc = Gpc::new(vec![0u8; 64]).unwrap();
    assert!(!gpc.is_valid());

    // Header that claims a longer message than the wrapping buffer:
    // type GPC in the upper bits of byte 0, length 4 quadlets (16 bytes);
    // the buffer holds only 8 bytes.
    let mut malformed = vec![0u8; HEADER_LEN];
    malformed[0] = AcfMsgType::Gpc.as_u8() << 1;
    malformed[1] = 4;
    let gpc = Gpc::new(malformed).unwrap();
    assert!(!gpc.is_valid());
}

#[test]
fn gpc_create_acf_message_round_trip() {
    let mut gpc = Gpc::initialized(vec![0u8; HEADER_LEN + 8]).unwrap();
    gpc.create_acf_message(0x4567_89AB_CDEF, &[1, 2, 3]).unwrap();

    assert_eq!(gpc.message_id(), 0x4567_89AB_CDEF);
    assert_eq!(gpc.acf_msg_length(), (HEADER_LEN as u16 + 4) / 4);
    assert_eq!(gpc.message_length(), HEADER_LEN as u16 + 4);
    assert!(gpc.is_valid());
}
