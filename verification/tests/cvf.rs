use open1722::cvf::h264::{H264, HEADER_LEN as H264_HEADER_LEN};
use open1722::cvf::jpeg2000::{Jpeg2000, HEADER_LEN as JPEG2000_HEADER_LEN};
use open1722::cvf::mjpeg::{Mjpeg, HEADER_LEN as MJPEG_HEADER_LEN};
use open1722::cvf::{Codec, Cvf, HEADER_LEN};
use open1722::{Error, Subtype};

#[test]
fn init_sets_cvf_subtype() {
    let cvf = Cvf::initialized(vec![0u8; HEADER_LEN]).unwrap();
    assert_eq!(cvf.subtype(), Subtype::Cvf.as_u8());
}

#[test]
fn cvf_header_round_trip() {
    let mut cvf = Cvf::initialized(vec![0u8; HEADER_LEN]).unwrap();
    cvf.set_sequence_num(0xAB);
    cvf.set_stream_id(0x1122_3344_5566_7788);
    cvf.set_avtp_timestamp(0xCAFE_F00D);
    cvf.set_codec(Codec::H264);
    cvf.set_marker(true);
    cvf.set_presentation_timestamp_valid(true);

    assert_eq!(cvf.sequence_num(), 0xAB);
    assert_eq!(cvf.stream_id(), 0x1122_3344_5566_7788);
    assert_eq!(cvf.avtp_timestamp(), 0xCAFE_F00D);
    assert_eq!(cvf.codec().unwrap(), Codec::H264);
    assert!(cvf.is_marker());
    assert!(cvf.is_presentation_timestamp_valid());
}

#[test]
fn codec_round_trips_for_each_variant() {
    for codec in [Codec::Mjpeg, Codec::H264, Codec::Jpeg2000] {
        let mut cvf = Cvf::initialized(vec![0u8; HEADER_LEN]).unwrap();
        cvf.set_codec(codec);
        assert_eq!(cvf.codec().unwrap(), codec);
    }
}

#[test]
fn cvf_rejects_short_buffer() {
    assert!(matches!(
        Cvf::new(vec![0u8; HEADER_LEN - 1]),
        Err(Error::BufferTooSmall { .. })
    ));
}

#[test]
fn timestamp_round_trip() {
    let mut h264 = H264::initialized(vec![0u8; H264_HEADER_LEN]).unwrap();
    h264.set_timestamp(0xDEAD_BEEF);
    assert_eq!(h264.timestamp(), 0xDEAD_BEEF);
}

#[test]
fn h264_rejects_short_buffer() {
    assert!(matches!(
        H264::new(vec![0u8; H264_HEADER_LEN - 1]),
        Err(Error::BufferTooSmall { .. })
    ));
}

#[test]
fn jpeg2000_header_round_trip() {
    let mut j2k = Jpeg2000::initialized(vec![0u8; JPEG2000_HEADER_LEN]).unwrap();
    j2k.set_tp(0x2);
    j2k.set_mhf(0x1);
    j2k.set_mh_id(0x5);
    j2k.set_tile_packetized(true);
    j2k.set_priority(0x7F);
    j2k.set_tile_number(1234);
    j2k.set_fragment_offset(0x00ABCDEF);

    assert_eq!(j2k.tp(), 0x2);
    assert_eq!(j2k.mhf(), 0x1);
    assert_eq!(j2k.mh_id(), 0x5);
    assert!(j2k.is_tile_packetized());
    assert_eq!(j2k.priority(), 0x7F);
    assert_eq!(j2k.tile_number(), 1234);
    assert_eq!(j2k.fragment_offset(), 0x00ABCDEF);
}

#[test]
fn jpeg2000_rejects_short_buffer() {
    assert!(matches!(
        Jpeg2000::new(vec![0u8; JPEG2000_HEADER_LEN - 1]),
        Err(Error::BufferTooSmall { .. })
    ));
}

#[test]
fn mjpeg_header_round_trip() {
    let mut mjpeg = Mjpeg::initialized(vec![0u8; MJPEG_HEADER_LEN]).unwrap();
    mjpeg.set_type_specific(0x01);
    mjpeg.set_fragment_offset(0x00ABCDEF);
    mjpeg.set_mjpeg_type(0x40);
    mjpeg.set_quality(0x80);
    mjpeg.set_width(80); // 640 px
    mjpeg.set_height(60); // 480 px

    assert_eq!(mjpeg.type_specific(), 0x01);
    assert_eq!(mjpeg.fragment_offset(), 0x00ABCDEF);
    assert_eq!(mjpeg.mjpeg_type(), 0x40);
    assert_eq!(mjpeg.quality(), 0x80);
    assert_eq!(mjpeg.width(), 80);
    assert_eq!(mjpeg.height(), 60);
}

#[test]
fn mjpeg_rejects_short_buffer() {
    assert!(matches!(
        Mjpeg::new(vec![0u8; MJPEG_HEADER_LEN - 1]),
        Err(Error::BufferTooSmall { .. })
    ));
}
