use open1722::acf::custom::vss::{Vss, HEADER_LEN};
use open1722::acf::custom::vss_brief::{VssBrief, HEADER_LEN as BRIEF_HEADER_LEN};
use open1722::acf::custom::{AddrMode, Datatype, OpCode};
use open1722::Error;

#[test]
fn init_sets_vss_acf_type() {
    let buf = Vss::initialized(vec![0u8; HEADER_LEN]).unwrap().into_inner();
    // VSS uses a custom ACF type code (0x42) not present in `AcfMsgType`.
    assert_eq!(buf[0] & 0xFE, 0x42 << 1);
}

#[test]
fn vss_header_round_trip() {
    let mut vss = Vss::initialized(vec![0u8; HEADER_LEN]).unwrap();
    vss.set_message_timestamp(0xCAFE_BABE_0000_0001);
    vss.set_addr_mode(AddrMode::StaticId);
    vss.set_op_code(OpCode::PublishTargetValue);
    vss.set_datatype(Datatype::F64Array);
    vss.set_message_timestamp_valid(true);

    assert_eq!(vss.message_timestamp(), 0xCAFE_BABE_0000_0001);
    assert_eq!(vss.addr_mode().unwrap(), AddrMode::StaticId);
    assert_eq!(vss.op_code().unwrap(), OpCode::PublishTargetValue);
    assert_eq!(vss.datatype().unwrap(), Datatype::F64Array);
    assert!(vss.datatype().unwrap().is_array());
    assert!(vss.is_message_timestamp_valid());
}

#[test]
fn vss_rejects_short_buffer() {
    assert!(matches!(
        Vss::new(vec![0u8; HEADER_LEN - 1]),
        Err(Error::BufferTooSmall { .. })
    ));
}

#[test]
fn init_sets_vss_brief_acf_type() {
    let buf = VssBrief::initialized(vec![0u8; BRIEF_HEADER_LEN]).unwrap().into_inner();
    // VSS and VSS Brief share the ACF type code 0x42; receivers tell them
    // apart by message length.
    assert_eq!(buf[0] & 0xFE, 0x42 << 1);
}

#[test]
fn vss_brief_header_round_trip() {
    let mut vss = VssBrief::initialized(vec![0u8; BRIEF_HEADER_LEN]).unwrap();
    vss.set_addr_mode(AddrMode::StaticId);
    vss.set_op_code(OpCode::PublishTargetValue);
    vss.set_datatype(Datatype::U32Array);
    vss.set_message_timestamp_valid(true);

    assert_eq!(vss.addr_mode().unwrap(), AddrMode::StaticId);
    assert_eq!(vss.op_code().unwrap(), OpCode::PublishTargetValue);
    assert_eq!(vss.datatype().unwrap(), Datatype::U32Array);
    assert!(vss.is_message_timestamp_valid());
}

#[test]
fn vss_brief_rejects_short_buffer() {
    assert!(matches!(
        VssBrief::new(vec![0u8; BRIEF_HEADER_LEN - 1]),
        Err(Error::BufferTooSmall { .. })
    ));
}
