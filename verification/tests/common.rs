use open1722::common_header::{CommonHeader, HEADER_LEN};
use open1722::{AcfMsgType, Error, Subtype};

#[test]
fn subtype_round_trip() {
    for v in [0x00u8, 0x05, 0x82, 0xFF] {
        let subtype = Subtype::try_from(v).unwrap();
        assert_eq!(subtype.as_u8(), v);
    }
}

#[test]
fn subtype_rejects_unknown() {
    assert!(matches!(Subtype::try_from(0x42), Err(Error::InvalidValue { .. })));
}

#[test]
fn acf_msg_type_round_trip() {
    for v in [0x0u8, 0x1, 0x9, 0x11] {
        let t = AcfMsgType::try_from(v).unwrap();
        assert_eq!(t.as_u8(), v);
    }
}

#[test]
fn dispatches_subtype() {
    let mut hdr = CommonHeader::new(vec![0u8; HEADER_LEN]).unwrap();
    hdr.set_subtype(Subtype::Tscf);
    assert_eq!(hdr.subtype().unwrap(), Subtype::Tscf);
}

#[test]
fn unknown_subtype_round_trips_raw() {
    let mut hdr = CommonHeader::new(vec![0u8; HEADER_LEN]).unwrap();
    hdr.set_subtype_raw(0x42);
    assert_eq!(hdr.subtype_raw(), 0x42);
    assert!(matches!(hdr.subtype(), Err(Error::InvalidValue { .. })));
}

#[test]
fn h_bit_round_trip() {
    let mut hdr = CommonHeader::new(vec![0u8; HEADER_LEN]).unwrap();
    assert!(!hdr.h());
    hdr.set_h(true);
    assert!(hdr.h());
}

#[test]
fn common_header_rejects_short_buffer() {
    assert!(matches!(CommonHeader::new(vec![]), Err(Error::BufferTooSmall { .. })));
}

#[test]
fn try_from_trait_matches_inherent_decoder() {
    let s: Result<Subtype, Error> = 0x82u8.try_into();
    assert_eq!(s, Ok(Subtype::Ntscf));
    assert_eq!(<AcfMsgType as TryFrom<u8>>::try_from(0x16), Ok(AcfMsgType::CanXl));
    assert!(matches!(<Subtype as TryFrom<u8>>::try_from(0x42), Err(Error::InvalidValue { .. })));
}
