use open1722::crf::{Crf, HEADER_LEN};
use open1722::{Error, Subtype};

#[test]
fn init_sets_crf_subtype_and_stream_valid() {
    let crf = Crf::initialized(vec![0u8; HEADER_LEN]).unwrap();
    assert_eq!(crf.subtype(), Subtype::Crf.as_u8());
    assert!(crf.is_stream_id_valid());
}

#[test]
fn crf_header_round_trip() {
    let mut crf = Crf::initialized(vec![0u8; HEADER_LEN]).unwrap();
    crf.set_sequence_num(0x33);
    crf.set_crf_type(0x01);
    crf.set_stream_id(0xCAFE_BABE_DEAD_BEEF);
    crf.set_pull(0x02);
    crf.set_base_frequency(48_000);
    crf.set_timestamp_interval(160);
    crf.set_timestamp_uncertain(true);

    assert_eq!(crf.sequence_num(), 0x33);
    assert_eq!(crf.crf_type(), 0x01);
    assert_eq!(crf.stream_id(), 0xCAFE_BABE_DEAD_BEEF);
    assert_eq!(crf.pull(), 0x02);
    assert_eq!(crf.base_frequency(), 48_000);
    assert_eq!(crf.timestamp_interval(), 160);
    assert!(crf.is_timestamp_uncertain());
}

#[test]
fn fs_toggle() {
    let mut crf = Crf::initialized(vec![0u8; HEADER_LEN]).unwrap();
    assert!(!crf.is_fs());
    crf.set_fs(true);
    assert!(crf.is_fs());
    crf.set_fs(false);
    assert!(!crf.is_fs());
}

#[test]
fn crf_rejects_short_buffer() {
    assert!(matches!(
        Crf::new(vec![0u8; HEADER_LEN - 1]),
        Err(Error::BufferTooSmall { .. })
    ));
}
