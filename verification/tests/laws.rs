use open1722::acf::abb::{self, Abb};
use open1722::acf::can::{self, Can, Variant};
use open1722::acf::can_xl::{self, CanXl};
use open1722::acf::gpc::{self, Gpc};
use open1722::acf::lin::{self, Lin};
use open1722::acf::most::{self, Most};
use open1722::acf::ntscf::{self, Ntscf};
use open1722::acf::sensor::{self, Sensor};
use open1722::acf::tscf::{self, Tscf};
use open1722::acf_common::AcfCommon;
use open1722::aaf::{self, Format, Pcm, SampleRate};
use open1722::common_header::CommonHeader;
use open1722::{AcfMsgType, Error, Subtype, Udp};

/// Closing off a payload of every length from 0 to 20 bytes: the pad count,
/// the declared length and the payload length read back as the framing
/// rules say, and the message is valid.
#[test]
fn set_payload_length_framing_for_every_length() {
    for n in 0u16..=20 {
        let mut msg = Abb::initialized(vec![0u8; abb::HEADER_LEN + 24]).unwrap();
        msg.set_payload_length(n).unwrap();
        let pad = (4 - n % 4) % 4;
        assert_eq!(msg.pad() as u16, pad, "n = {n}");
        assert_eq!(msg.payload_length() as u16, n, "n = {n}");
        assert_eq!(4 * msg.acf_msg_length(), abb::HEADER_LEN as u16 + n + pad, "n = {n}");
        assert_eq!(msg.message_length(), 4 * msg.acf_msg_length(), "n = {n}");
        assert!(msg.is_valid(), "n = {n}");
    }
}

/// The pad bytes after the payload are zeroed when the payload is closed
/// off, whatever they held before.
#[test]
fn set_payload_length_zeroes_pad_bytes() {
    let mut msg = Can::initialized(vec![0xFFu8; can::HEADER_LEN + 8]).unwrap();
    msg.set_payload_length(5).unwrap();
    let bytes = msg.into_inner();
    assert_eq!(&bytes[can::HEADER_LEN..can::HEADER_LEN + 5], &[0xFF; 5]);
    assert_eq!(&bytes[can::HEADER_LEN + 5..can::HEADER_LEN + 8], &[0, 0, 0]);
}

/// A message that was only initialized declares no length, so it is not
/// valid, whatever the format.
#[test]
fn fresh_messages_are_not_valid() {
    assert!(!Abb::initialized(vec![0u8; 64]).unwrap().is_valid());
    assert!(!Can::initialized(vec![0u8; 64]).unwrap().is_valid());
    assert!(!CanXl::initialized(vec![0u8; 64]).unwrap().is_valid());
    assert!(!Gpc::initialized(vec![0u8; 64]).unwrap().is_valid());
    assert!(!Lin::initialized(vec![0u8; 64]).unwrap().is_valid());
    assert!(!Most::initialized(vec![0u8; 64]).unwrap().is_valid());
    assert!(!Sensor::initialized(vec![0u8; 64]).unwrap().is_valid());
    assert_eq!(Can::initialized(vec![0xAAu8; 64]).unwrap().acf_msg_length(), 0);
}

/// Initialization clears every header byte, whatever the buffer held, and
/// leaves the bytes after the header alone.
#[test]
fn initialized_clears_only_the_header() {
    let bytes = Lin::initialized(vec![0xEEu8; lin::HEADER_LEN + 4]).unwrap().into_inner();
    assert_eq!(bytes[0], AcfMsgType::Lin.as_u8() << 1);
    assert!(bytes[1..lin::HEADER_LEN].iter().all(|b| *b == 0));
    assert_eq!(&bytes[lin::HEADER_LEN..], &[0xEE; 4]);
}

/// A freshly initialized TSCF or NTSCF header is valid even in a buffer that
/// holds nothing else.
#[test]
fn fresh_stream_containers_are_valid() {
    let tscf = Tscf::initialized(vec![0xFFu8; tscf::HEADER_LEN]).unwrap();
    assert!(tscf.is_valid());
    assert_eq!(tscf.stream_data_length(), 0);
    assert!(tscf.is_stream_id_valid());
    assert!(!tscf.is_timestamp_valid());
    let ntscf = Ntscf::initialized(vec![0xFFu8; ntscf::HEADER_LEN]).unwrap();
    assert!(ntscf.is_valid());
    assert_eq!(ntscf.ntscf_data_length(), 0);
}

/// Building a message and reading it back gives what went in, for the
/// largest identifier and an extended one.
#[test]
fn can_create_reads_back() {
    let payload = [9u8, 8, 7, 6, 5, 4, 3];
    let mut msg = Can::initialized(vec![0u8; can::HEADER_LEN + 8]).unwrap();
    msg.create_acf_message(0x1FFF_FFFF, &payload, Variant::Classic).unwrap();
    assert_eq!(msg.identifier(), 0x1FFF_FFFF);
    assert!(msg.is_extended());
    assert!(!msg.is_fd_format());
    assert_eq!(msg.payload(), &payload);
    assert_eq!(msg.payload_length(), 7);
    assert_eq!(msg.pad(), 1);
    assert_eq!(msg.acf_msg_length(), 6);
    assert!(msg.is_valid());

    // An 11-bit identifier is not marked extended.
    let mut msg = Can::initialized(vec![0u8; can::HEADER_LEN]).unwrap();
    msg.create_acf_message(0x7FF, &[], Variant::Fd).unwrap();
    assert!(!msg.is_extended());
    assert!(msg.is_fd_format());
    assert_eq!(msg.payload(), &[] as &[u8]);
    assert!(msg.is_valid());
}

/// A classic frame with more than 8 payload bytes is framed but not valid;
/// the same payload in CAN FD is.
#[test]
fn can_payload_limit_depends_on_fd() {
    let mut msg = Can::initialized(vec![0u8; 64]).unwrap();
    msg.create_acf_message(0x10, &[1u8; 12], Variant::Classic).unwrap();
    assert!(!msg.is_valid());
    msg.create_acf_message(0x10, &[1u8; 12], Variant::Fd).unwrap();
    assert!(msg.is_valid());
}

/// A failed build reports the room it needed and leaves the buffer as it
/// was.
#[test]
fn create_error_reports_needed_room_and_changes_nothing() {
    let mut msg = Can::initialized(vec![0u8; can::HEADER_LEN + 1]).unwrap();
    msg.set_bus_id(3);
    let before = msg.as_bytes().to_vec();
    let err = msg.create_acf_message(0x10, &[0; 5], Variant::Classic).unwrap_err();
    assert_eq!(err, Error::BufferTooSmall { required: can::HEADER_LEN + 8, actual: can::HEADER_LEN + 1 });
    assert_eq!(msg.as_bytes(), &before[..]);

    let mut msg = Gpc::initialized(vec![0u8; gpc::HEADER_LEN]).unwrap();
    assert_eq!(
        msg.set_payload_length(1),
        Err(Error::BufferTooSmall { required: gpc::HEADER_LEN + 4, actual: gpc::HEADER_LEN })
    );
}

/// Wrapping a buffer shorter than the header reports both lengths.
#[test]
fn short_buffer_error_reports_lengths() {
    assert_eq!(
        Can::new(vec![0u8; 3]).err(),
        Some(Error::BufferTooSmall { required: can::HEADER_LEN, actual: 3 })
    );
    assert_eq!(
        CommonHeader::new(vec![]).err(),
        Some(Error::BufferTooSmall { required: 4, actual: 0 })
    );
    assert!(Can::new(vec![0u8; can::HEADER_LEN]).is_ok());
}

/// A code with no meaning is reported with the field and the code.
#[test]
fn invalid_codes_are_named() {
    assert_eq!(
        Subtype::try_from(0x42),
        Err(Error::InvalidValue { field: "AVTP subtype", value: 0x42 })
    );
    let mut acf = AcfCommon::new(vec![0u8; 4]).unwrap();
    acf.set_acf_msg_type_raw(0x7F);
    assert_eq!(
        acf.acf_msg_type(),
        Err(Error::InvalidValue { field: "ACF message type", value: 0x7F })
    );
}

/// Every subtype and message type decodes from its own code.
#[test]
fn codes_round_trip() {
    for code in 0u8..=0xFF {
        if let Ok(s) = Subtype::try_from(code) {
            assert_eq!(s.as_u8(), code);
        }
        if let Ok(t) = AcfMsgType::try_from(code) {
            assert_eq!(t.as_u8(), code);
        }
    }
    assert_eq!(Subtype::try_from(Subtype::Tscf.as_u8()), Ok(Subtype::Tscf));
    assert_eq!(AcfMsgType::try_from(AcfMsgType::CanXl.as_u8()), Ok(AcfMsgType::CanXl));
}

/// Setting one field leaves the others as they were, and of two settings of
/// one field the second counts.
#[test]
fn setters_touch_only_their_field() {
    let mut msg = CanXl::initialized(vec![0u8; can_xl::HEADER_LEN]).unwrap();
    msg.set_vcid(0xFF);
    msg.set_sdt(0xFF);
    msg.set_priority_id(0x7FF);
    msg.set_acceptance_field(0xFFFF_FFFF);
    msg.set_sdt(0x12);
    assert_eq!(msg.vcid(), 0xFF);
    assert_eq!(msg.sdt(), 0x12);
    assert_eq!(msg.priority_id(), 0x7FF);
    assert_eq!(msg.acceptance_field(), 0xFFFF_FFFF);
    assert_eq!(msg.acf_msg_length(), 0);
}

/// A value wider than its field keeps only its low bits.
#[test]
fn wide_values_are_truncated_to_the_field() {
    let mut msg = Lin::initialized(vec![0u8; lin::HEADER_LEN]).unwrap();
    msg.set_bus_id(0xFF); // 5-bit field
    assert_eq!(msg.bus_id(), 0x1F);
    let mut msg = Most::initialized(vec![0u8; most::HEADER_LEN]).unwrap();
    msg.set_op_type(0x1F); // 4-bit field
    assert_eq!(msg.op_type(), 0xF);
}

/// The stream data slice is cut at the end of the buffer and otherwise is
/// exactly the declared length.
#[test]
fn tscf_data_is_declared_length_or_what_is_there() {
    let mut bytes = vec![0u8; tscf::HEADER_LEN + 6];
    bytes[tscf::HEADER_LEN..].copy_from_slice(&[1, 2, 3, 4, 5, 6]);
    let mut tscf = Tscf::initialized(bytes).unwrap();
    tscf.set_stream_data_length(4);
    assert_eq!(tscf.data(), &[1, 2, 3, 4]);
    tscf.set_stream_data_length(100);
    assert_eq!(tscf.data(), &[1, 2, 3, 4, 5, 6]);
    assert!(!tscf.is_valid());
}

/// A sensor message's payload length is its readings times their width.
#[test]
fn sensor_payload_length_is_readings_times_width() {
    let mut msg = Sensor::initialized(vec![0u8; sensor::HEADER_LEN + 16]).unwrap();
    msg.create_acf_message(5, 3, &[0u8; 15]).unwrap();
    assert_eq!(msg.payload_length(), 15);
    assert_eq!(msg.acf_msg_length(), 7);
}

/// The AAF enumerations decode from their codes.
#[test]
fn aaf_codes() {
    let mut pcm = Pcm::initialized(vec![0u8; aaf::HEADER_LEN]).unwrap();
    pcm.set_format(Format::Aes3_32);
    pcm.set_sample_rate(SampleRate::Hz24000);
    assert_eq!(pcm.format(), Ok(Format::Aes3_32));
    assert_eq!(pcm.sample_rate(), Ok(SampleRate::Hz24000));
    let mut bytes = pcm.into_inner();
    bytes[16] = 0x06; // format code with no meaning
    let pcm = Pcm::new(bytes).unwrap();
    assert_eq!(pcm.format(), Err(Error::InvalidValue { field: "AAF format", value: 6 }));
}

/// The UDP encapsulation header a default value starts from is all zeros.
#[test]
fn udp_default_is_cleared() {
    let udp = Udp::default();
    assert_eq!(udp.as_bytes(), &[0u8; 4]);
    assert_eq!(udp.encapsulation_seq_no(), 0);
}

/// The frame of the README tutorial: a UDP header, a TSCF container and a
/// CAN and a LIN message, walked back message by message.
#[test]
fn readme_talker_frame_walks_back() {
    let mut udp = Udp::initialized(vec![0u8; 4]).unwrap();
    udp.set_encapsulation_seq_no(1);

    let mut tscf = Tscf::initialized(vec![0u8; 24]).unwrap();
    tscf.set_sequence_num(123);
    tscf.set_stream_id(0xAABB_CCDD_EEFF);
    tscf.set_avtp_timestamp(0x1122_3344);
    tscf.set_timestamp_valid(true);
    tscf.set_stream_data_length(36);

    let mut can = Can::initialized(vec![0u8; 20]).unwrap();
    can.set_bus_id(4);
    can.create_acf_message(0x100, &[0x11, 0x22], Variant::Classic).unwrap();

    let mut lin = Lin::initialized(vec![0u8; 16]).unwrap();
    lin.set_bus_id(1);
    lin.set_identifier(0x10);
    lin.as_bytes_mut()[lin::HEADER_LEN..lin::HEADER_LEN + 3].copy_from_slice(&[0x11, 0x22, 0x33]);

    let mut frame = udp.into_inner();
    frame.extend_from_slice(tscf.as_bytes());
    frame.extend_from_slice(can.as_bytes());
    frame.extend_from_slice(lin.as_bytes());
    assert_eq!(frame.len(), 64);

    let udp = Udp::new(frame[..4].to_vec()).unwrap();
    assert_eq!(udp.encapsulation_seq_no(), 1);
    let header = CommonHeader::new(frame[4..].to_vec()).unwrap();
    assert_eq!(header.subtype(), Ok(Subtype::Tscf));
    let tscf = Tscf::new(frame[4..].to_vec()).unwrap();
    assert!(tscf.is_valid());
    let data = tscf.data().to_vec();
    assert_eq!(data.len(), 36);

    let first = AcfCommon::new(data.clone()).unwrap();
    assert_eq!(first.acf_msg_type(), Ok(AcfMsgType::Can));
    assert_eq!(first.message_length(), 20);
    let can = Can::new(data[..20].to_vec()).unwrap();
    assert!(can.is_valid());
    // Building the message reset the header, bus id included.
    assert_eq!(can.bus_id(), 0);
    assert_eq!(can.payload(), &[0x11, 0x22]);
    let second = AcfCommon::new(data[20..].to_vec()).unwrap();
    assert_eq!(second.acf_msg_type(), Ok(AcfMsgType::Lin));
    let lin = Lin::new(data[20..].to_vec()).unwrap();
    assert_eq!(lin.identifier(), 0x10);
}

/// The `sz` code 0 stands for readings of 4 octets.
#[test]
fn sensor_size_code_zero_means_four_octets() {
    let mut msg = Sensor::initialized(vec![0u8; sensor::HEADER_LEN + 8]).unwrap();
    msg.set_num_sensor(2);
    assert_eq!(msg.sensor_size(), 0);
    assert_eq!(msg.payload_length(), 8);
    msg.set_sensor_size(1);
    assert_eq!(msg.payload_length(), 2);
}
