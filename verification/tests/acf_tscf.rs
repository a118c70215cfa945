use open1722::acf::tscf::{Tscf, HEADER_LEN};
use open1722::{Error, Subtype};

/// Initialization sets both the subtype byte and the `sv` (stream id
/// valid) bit.
#[test]
fn tscf_init_sets_subtype_and_stream_valid() {
    let tscf = Tscf::initialized(vec![0u8; HEADER_LEN]).unwrap();
    assert_eq!(tscf.subtype(), Subtype::Tscf.as_u8());
    assert!(tscf.is_stream_id_valid());
}

#[test]
fn tscf_header_round_trip() {
    let mut tscf = Tscf::initialized(vec![0u8; HEADER_LEN]).unwrap();
    tscf.set_sequence_num(42);
    tscf.set_stream_id(0xAABB_CCDD_EEFF_0011);
    tscf.set_avtp_timestamp(0xDEAD_BEEF);
    tscf.set_stream_data_length(0);
    tscf.set_timestamp_valid(true);
    tscf.set_stream_id_valid(true);

    assert_eq!(tscf.sequence_num(), 42);
    assert_eq!(tscf.stream_id(), 0xAABB_CCDD_EEFF_0011);
    assert_eq!(tscf.avtp_timestamp(), 0xDEAD_BEEF);
    assert!(tscf.is_timestamp_valid());
    assert!(tscf.is_stream_id_valid());
    assert!(!tscf.is_media_reset());
    assert!(tscf.is_valid());
}

#[test]
fn data_slice_clamps_to_buffer() {
    let mut tscf = Tscf::initialized(vec![0u8; HEADER_LEN + 8]).unwrap();
    tscf.set_stream_data_length(64);
    // Only 8 payload bytes physically available; declared length lies.
    assert_eq!(tscf.data().len(), 8);
}

#[test]
fn tscf_rejects_short_buffer() {
    assert!(matches!(
        Tscf::new(vec![0u8; HEADER_LEN - 1]),
        Err(Error::BufferTooSmall { .. })
    ));
}

#[test]
fn tscf_is_valid_corruption_cases() {
    let tscf = Tscf::initialized(vec![0u8; 64]).unwrap();
    assert!(tscf.is_valid());

    let tscf = Tscf::new(vec![0u8; 64]).unwrap();
    assert!(!tscf.is_valid());

    // Declared stream data length exceeds the wrapping buffer.
    let mut tscf = Tscf::initialized(vec![0u8; HEADER_LEN]).unwrap();
    tscf.set_stream_data_length(HEADER_LEN as u16 + 1);
    let view = Tscf::new(tscf.into_inner()).unwrap();
    assert!(!view.is_valid());
}
