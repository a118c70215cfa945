use open1722::acf::ntscf::{Ntscf, HEADER_LEN};
use open1722::{Error, Subtype};

/// Initialization sets both the subtype byte and the `sv` (stream id
/// valid) bit.
#[test]
fn ntscf_init_sets_subtype_and_stream_valid() {
    let ntscf = Ntscf::initialized(vec![0u8; HEADER_LEN]).unwrap();
    assert_eq!(ntscf.subtype(), Subtype::Ntscf.as_u8());
    assert!(ntscf.is_stream_id_valid());
}

#[test]
fn ntscf_header_round_trip() {
    let mut ntscf = Ntscf::initialized(vec![0u8; HEADER_LEN]).unwrap();
    ntscf.set_sequence_num(7);
    ntscf.set_stream_id(0x1122_3344_5566_7788);
    ntscf.set_ntscf_data_length(0);
    ntscf.set_stream_id_valid(true);

    assert_eq!(ntscf.sequence_num(), 7);
    assert_eq!(ntscf.stream_id(), 0x1122_3344_5566_7788);
    assert!(ntscf.is_stream_id_valid());
    assert!(ntscf.is_valid());
}

#[test]
fn ntscf_rejects_short_buffer() {
    assert!(matches!(
        Ntscf::new(vec![0u8; HEADER_LEN - 1]),
        Err(Error::BufferTooSmall { .. })
    ));
}

#[test]
fn ntscf_is_valid_corruption_cases() {
    let ntscf = Ntscf::initialized(vec![0u8; 64]).unwrap();
    assert!(ntscf.is_valid());

    let ntscf = Ntscf::new(vec![0u8; 64]).unwrap();
    assert!(!ntscf.is_valid());

    let mut ntscf = Ntscf::initialized(vec![0u8; HEADER_LEN]).unwrap();
    ntscf.set_ntscf_data_length(HEADER_LEN as u16 + 1);
    let view = Ntscf::new(ntscf.into_inner()).unwrap();
    assert!(!view.is_valid());
}
