use open1722::acf::custom::vss::{self, Vss};
use open1722::acf::flexray::{self, FlexRay};
use open1722::crf::{self, Crf};
use open1722::rvf::{self, Rvf};

#[test]
fn crf_data_length_round_trip() {
    let mut crf = Crf::initialized(vec![0u8; crf::HEADER_LEN]).unwrap();
    crf.set_crf_data_length(0xBEEF);
    assert_eq!(crf.crf_data_length(), 0xBEEF);
    assert!(crf.is_stream_id_valid());
}

#[test]
fn rvf_flag_and_line_fields_round_trip() {
    let mut rvf = Rvf::initialized(vec![0u8; rvf::HEADER_LEN]).unwrap();
    rvf.set_ap(true);
    rvf.set_ef(true);
    rvf.set_pd(true);
    rvf.set_num_lines(0xF);
    rvf.set_i_seq_num(0xA5);
    assert!(rvf.is_ap());
    assert!(rvf.is_ef());
    assert!(rvf.is_pd());
    assert_eq!(rvf.num_lines(), 0xF);
    assert_eq!(rvf.i_seq_num(), 0xA5);
    rvf.set_ef(false);
    assert!(!rvf.is_ef());
    assert!(rvf.is_ap());
    assert!(rvf.is_pd());
}

#[test]
fn flexray_frame_indicators_round_trip() {
    let mut frame = FlexRay::initialized(vec![0u8; flexray::HEADER_LEN]).unwrap();
    frame.set_startup_frame(true);
    frame.set_preamble(true);
    frame.set_null_frame(true);
    assert!(frame.is_startup_frame());
    assert!(frame.is_preamble());
    assert!(frame.is_null_frame());
    assert!(!frame.is_sync_frame());
    frame.set_preamble(false);
    assert!(!frame.is_preamble());
    assert!(frame.is_null_frame());
}

/// Padding a VSS message of 13 bytes records 3 pad bytes and a length of 4
/// quadlets.
#[test]
fn vss_pad_to_sets_length_and_pad() {
    let mut msg = Vss::initialized(vec![0u8; vss::HEADER_LEN + 4]).unwrap();
    msg.pad_to(13);
    assert_eq!(msg.pad(), 3);
    assert_eq!(msg.acf_msg_length(), 4);
    msg.pad_to(16);
    assert_eq!(msg.pad(), 0);
    assert_eq!(msg.acf_msg_length(), 4);
}
