use open1722::rvf::{Colorspace, FrameRate, PixelDepth, PixelFormat, Rvf, HEADER_LEN};
use open1722::{Error, Subtype};

#[test]
fn init_sets_rvf_subtype() {
    let rvf = Rvf::initialized(vec![0u8; HEADER_LEN]).unwrap();
    assert_eq!(rvf.subtype(), Subtype::Rvf.as_u8());
}

#[test]
fn rvf_header_round_trip() {
    let mut rvf = Rvf::initialized(vec![0u8; HEADER_LEN]).unwrap();
    rvf.set_sequence_num(0x12);
    rvf.set_stream_id(0xFEED_FACE_C0FE_BABE);
    rvf.set_avtp_timestamp(0x1234_5678);
    rvf.set_active_pixels(1920);
    rvf.set_total_lines(1080);
    rvf.set_pixel_depth(PixelDepth::Bits10);
    rvf.set_pixel_format(PixelFormat::Yuv422);
    rvf.set_frame_rate(FrameRate::Fps60);
    rvf.set_colorspace(Colorspace::Bt709);
    rvf.set_i(true);
    rvf.set_f(true);

    assert_eq!(rvf.sequence_num(), 0x12);
    assert_eq!(rvf.stream_id(), 0xFEED_FACE_C0FE_BABE);
    assert_eq!(rvf.avtp_timestamp(), 0x1234_5678);
    assert_eq!(rvf.active_pixels(), 1920);
    assert_eq!(rvf.total_lines(), 1080);
    assert_eq!(rvf.pixel_depth().unwrap(), PixelDepth::Bits10);
    assert_eq!(rvf.pixel_format().unwrap(), PixelFormat::Yuv422);
    assert_eq!(rvf.frame_rate().unwrap(), FrameRate::Fps60);
    assert_eq!(rvf.colorspace().unwrap(), Colorspace::Bt709);
    assert!(rvf.is_i());
    assert!(rvf.is_f());
}

#[test]
fn frame_rate_fps_lookup() {
    assert_eq!(FrameRate::Fps60.fps(), Some(60));
    assert_eq!(FrameRate::Fps24.fps(), Some(24));
    assert_eq!(FrameRate::User.fps(), None);
}

#[test]
fn rvf_rejects_short_buffer() {
    assert!(matches!(
        Rvf::new(vec![0u8; HEADER_LEN - 1]),
        Err(Error::BufferTooSmall { .. })
    ));
}

#[test]
fn wire_codes_are_public_and_round_trip() {
    assert_eq!(FrameRate::Fps10.as_u8(), 0x10);
    assert_eq!(FrameRate::from_raw(0x10), Ok(FrameRate::Fps10));
    assert_eq!(Subtype::Ntscf.as_u8(), 0x82);
    assert_eq!(open1722::aaf::SampleRate::Hz24000.as_u8(), 0x0A);
    assert_eq!(open1722::cvf::Codec::Jpeg2000.as_u8(), 0x02);
    assert_eq!(PixelDepth::from_raw(PixelDepth::Bits10.as_u8()), Ok(PixelDepth::Bits10));
    assert_eq!(Colorspace::from_raw(Colorspace::Bt709.as_u8()), Ok(Colorspace::Bt709));
    assert_eq!(PixelFormat::from_raw(PixelFormat::Yuv422.as_u8()), Ok(PixelFormat::Yuv422));
}

#[test]
fn common_header_check_len() {
    assert_eq!(open1722::common_header::check_len(4), Ok(()));
    assert_eq!(
        open1722::common_header::check_len(3),
        Err(Error::BufferTooSmall { required: 4, actual: 3 })
    );
}
