use open1722::acf::can::{Can, Variant};
use open1722::acf::lin::Lin;
use open1722::acf_common::{AcfCommon, HEADER_LEN};
use open1722::{AcfMsgType, Error};

#[test]
fn dispatches_acf_msg_type() {
    let mut acf = AcfCommon::new(vec![0u8; HEADER_LEN]).unwrap();
    acf.set_acf_msg_type(AcfMsgType::Sensor);
    assert_eq!(acf.acf_msg_type().unwrap(), AcfMsgType::Sensor);
}

#[test]
fn user_and_vendor_types_round_trip_raw() {
    // VSS (0x42) is vendor-assigned; 0x78..=0x7F is the user-defined
    // range. None map to a standardized variant.
    for raw in [0x42u8, 0x78, 0x7F] {
        let mut acf = AcfCommon::new(vec![0u8; HEADER_LEN]).unwrap();
        acf.set_acf_msg_type_raw(raw);
        assert_eq!(acf.acf_msg_type_raw(), raw);
        assert!(matches!(acf.acf_msg_type(), Err(Error::InvalidValue { .. })));
    }
}

#[test]
fn msg_length_quadlets_and_bytes() {
    let mut acf = AcfCommon::new(vec![0u8; HEADER_LEN]).unwrap();
    acf.set_acf_msg_length(4);
    assert_eq!(acf.acf_msg_length(), 4);
    assert_eq!(acf.message_length(), 16);
}

#[test]
fn acf_common_rejects_short_buffer() {
    assert!(matches!(
        AcfCommon::new(vec![0u8; HEADER_LEN - 1]),
        Err(Error::BufferTooSmall { .. })
    ));
}

#[test]
fn walks_acf_chain() {
    // A 20-byte CAN message followed by a 16-byte LIN message.
    let mut can = Can::initialized(vec![0u8; 20]).unwrap();
    can.create_acf_message(0x100, &[0x11, 0x22], Variant::Classic).unwrap();

    let mut lin = Lin::initialized(vec![0u8; 16]).unwrap();
    lin.set_payload(&[0x11, 0x22, 0x33]).unwrap();
    lin.set_payload_length(3).unwrap();

    let mut buf = can.into_inner();
    buf.extend_from_slice(lin.as_bytes());
    assert_eq!(buf.len(), 36);

    let mut offset = 0;
    let mut visited = Vec::new();
    while offset < buf.len() {
        let acf = AcfCommon::new(buf[offset..].to_vec()).unwrap();
        visited.push((acf.acf_msg_type().unwrap(), acf.message_length()));
        offset += acf.message_length() as usize;
    }
    assert_eq!(visited, vec![(AcfMsgType::Can, 20), (AcfMsgType::Lin, 16)]);

    // Each message's bytes parse under its typed wrapper.
    assert!(Can::new(buf[0..20].to_vec()).unwrap().is_valid());
    assert!(Lin::new(buf[20..].to_vec()).unwrap().is_valid());
}
