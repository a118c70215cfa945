use open1722::acf::most::{Most, HEADER_LEN};
use open1722::{AcfMsgType, Error};

#[test]
fn init_sets_most_acf_type() {
    let buf = Most::initialized(vec![0u8; HEADER_LEN]).unwrap().into_inner();
    let expected = AcfMsgType::Most.as_u8() << 1;
    assert_eq!(buf[0] & 0xFE, expected);
}

#[test]
fn most_header_round_trip() {
    let mut most = Most::initialized(vec![0u8; HEADER_LEN + 8]).unwrap();
    most.set_net_id(2);
    most.set_device_id(0xBEEF);
    most.set_fblock_id(0x10);
    most.set_instance_id(0x01);
    most.set_function_id(0x0A40);
    most.set_op_type(0x02);
    most.set_message_timestamp(0xDEAD_BEEF_0000_FFFF);
    most.set_message_timestamp_valid(true);

    assert_eq!(most.net_id(), 2);
    assert_eq!(most.device_id(), 0xBEEF);
    assert_eq!(most.fblock_id(), 0x10);
    assert_eq!(most.instance_id(), 0x01);
    assert_eq!(most.function_id(), 0x0A40);
    assert_eq!(most.op_type(), 0x02);
    assert_eq!(most.message_timestamp(), 0xDEAD_BEEF_0000_FFFF);
    assert!(most.is_message_timestamp_valid());
}

#[test]
fn most_rejects_short_buffer() {
    assert!(matches!(
        Most::new(vec![0u8; HEADER_LEN - 1]),
        Err(Error::BufferTooSmall { .. })
    ));
}

#[test]
fn most_is_valid_corruption_cases() {
    // Only initialized: a declared length of zero is shorter than the header.
    let most = Most::initialized(vec![0u8; 64]).unwrap();
    assert!(!most.is_valid());

    // A frame finalized with an empty payload is valid.
    let mut most = Most::initialized(vec![0u8; 64]).unwrap();
    most.set_payload_length(0).unwrap();
    assert!(most.is_valid());

    let most = Most::new(vec![0u8; 64]).unwrap();
    assert!(!most.is_valid());

    // Header claims 8 quadlets (32 bytes), buffer holds 20.
    let mut malformed = vec![0u8; HEADER_LEN];
    malformed[0] = AcfMsgType::Most.as_u8() << 1;
    malformed[1] = 8;
    let most = Most::new(malformed).unwrap();
    assert!(!most.is_valid());
}
