use open1722::udp::HEADER_LEN;
use open1722::{Error, Udp};

#[test]
fn default_buffer_is_header_sized() {
    let udp = Udp::default();
    assert_eq!(udp.as_bytes().len(), HEADER_LEN);
}

#[test]
fn seq_no_round_trip() {
    let mut udp = Udp::default();
    udp.set_encapsulation_seq_no(0xDEAD_BEEF);
    assert_eq!(udp.encapsulation_seq_no(), 0xDEAD_BEEF);
}

#[test]
fn udp_rejects_short_buffer() {
    assert!(matches!(
        Udp::new(vec![0u8; HEADER_LEN - 1]),
        Err(Error::BufferTooSmall { .. })
    ));
}

#[test]
fn parses_over_borrowed_slice() {
    let mut udp = Udp::initialized(vec![0u8; 64]).unwrap();
    udp.set_encapsulation_seq_no(7);

    let view = Udp::new(udp.into_inner()).unwrap();
    assert_eq!(view.encapsulation_seq_no(), 7);
}
