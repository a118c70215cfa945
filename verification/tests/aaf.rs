use open1722::aaf::{Format, Pcm, SampleRate, HEADER_LEN};
use open1722::{Error, Subtype};

#[test]
fn init_sets_aaf_subtype_and_stream_valid() {
    let pcm = Pcm::initialized(vec![0u8; HEADER_LEN]).unwrap();
    assert_eq!(pcm.subtype(), Subtype::Aaf.as_u8());
    assert!(pcm.is_stream_id_valid());
}

#[test]
fn format_and_sample_rate_round_trip() {
    let mut pcm = Pcm::initialized(vec![0u8; HEADER_LEN]).unwrap();
    pcm.set_format(Format::Int24);
    pcm.set_sample_rate(SampleRate::Hz48000);
    pcm.set_channels_per_frame(8);
    pcm.set_bit_depth(24);

    assert_eq!(pcm.format().unwrap(), Format::Int24);
    assert_eq!(pcm.sample_rate().unwrap(), SampleRate::Hz48000);
    assert_eq!(pcm.channels_per_frame(), 8);
    assert_eq!(pcm.bit_depth(), 24);
}

#[test]
fn aaf_header_round_trip() {
    let mut pcm = Pcm::initialized(vec![0u8; HEADER_LEN]).unwrap();
    pcm.set_sequence_num(0x77);
    pcm.set_stream_id(0x0011_2233_4455_6677);
    pcm.set_avtp_timestamp(0xDEAD_BEEF);
    pcm.set_stream_data_length(192);
    pcm.set_timestamp_valid(true);
    pcm.set_sparse_timestamp(true);

    assert_eq!(pcm.sequence_num(), 0x77);
    assert_eq!(pcm.stream_id(), 0x0011_2233_4455_6677);
    assert_eq!(pcm.avtp_timestamp(), 0xDEAD_BEEF);
    assert_eq!(pcm.stream_data_length(), 192);
    assert!(pcm.is_timestamp_valid());
    assert!(pcm.is_sparse_timestamp());
}

#[test]
fn aaf_rejects_short_buffer() {
    assert!(matches!(
        Pcm::new(vec![0u8; HEADER_LEN - 1]),
        Err(Error::BufferTooSmall { .. })
    ));
}
