use open1722::acf::sensor::{Sensor, HEADER_LEN};
use open1722::acf::sensor_brief::{SensorBrief, HEADER_LEN as BRIEF_HEADER_LEN};
use open1722::{AcfMsgType, Error};

#[test]
fn init_sets_sensor_acf_type() {
    let buf = Sensor::initialized(vec![0u8; HEADER_LEN]).unwrap().into_inner();
    let expected = AcfMsgType::Sensor.as_u8() << 1;
    assert_eq!(buf[0] & 0xFE, expected);
}

#[test]
fn sensor_header_round_trip() {
    let mut sensor = Sensor::initialized(vec![0u8; HEADER_LEN + 8]).unwrap();
    sensor.set_num_sensor(10);
    sensor.set_sensor_size(3);
    sensor.set_sensor_group(5);
    sensor.set_message_timestamp(0x1234_5678_9ABC);
    sensor.set_message_timestamp_valid(true);

    assert_eq!(sensor.num_sensor(), 10);
    assert_eq!(sensor.sensor_size(), 3);
    assert_eq!(sensor.sensor_group(), 5);
    assert_eq!(sensor.message_timestamp(), 0x1234_5678_9ABC);
    assert!(sensor.is_message_timestamp_valid());

    sensor.set_message_timestamp_valid(false);
    assert!(!sensor.is_message_timestamp_valid());
}

#[test]
fn sensor_is_valid_corruption_cases() {
    // Only initialized: a declared length of zero is shorter than the header.
    let sensor = Sensor::initialized(vec![0u8; 64]).unwrap();
    assert!(!sensor.is_valid());

    // A frame whose declared length matches its sensor fields is valid:
    // one reading of 4 octets (sz == 0 encodes size 4) means a 4-byte
    // payload.
    let mut sensor = Sensor::initialized(vec![0u8; 64]).unwrap();
    sensor.set_num_sensor(1);
    sensor.set_payload_length(4).unwrap();
    assert!(sensor.is_valid());
    // The same frame stays valid when the buffer is trimmed to the
    // message length.
    let backing = sensor.into_inner();
    let sensor = Sensor::new(backing[..HEADER_LEN + 4].to_vec()).unwrap();
    assert!(sensor.is_valid());

    let sensor = Sensor::new(vec![0u8; 64]).unwrap();
    assert!(!sensor.is_valid());

    // Declared length and payload-length invariant disagree: the header
    // claims 5 quadlets (20 bytes) but the payload field implies a
    // different padded total.
    let mut malformed = vec![0u8; HEADER_LEN];
    malformed[0] = AcfMsgType::Sensor.as_u8() << 1;
    malformed[1] = 5;
    let sensor = Sensor::new(malformed).unwrap();
    assert!(!sensor.is_valid());
}

#[test]
fn sensor_rejects_short_buffer() {
    assert!(matches!(
        Sensor::new(vec![0u8; HEADER_LEN - 1]),
        Err(Error::BufferTooSmall { .. })
    ));
}

/// Three readings of two octets each, payload consistent with the sensor
/// fields.
#[test]
fn sensor_create_acf_message_round_trip() {
    let mut sensor = Sensor::initialized(vec![0u8; HEADER_LEN + 8]).unwrap();
    sensor.create_acf_message(3, 2, &[0, 1, 2, 3, 4, 5]).unwrap();

    assert_eq!(sensor.num_sensor(), 3);
    assert_eq!(sensor.sensor_size(), 2);
    assert_eq!(sensor.payload(), &[0, 1, 2, 3, 4, 5]);
    assert_eq!(sensor.payload_length(), 6);
    // 12-byte header + 6 payload + 2 pad = 20 bytes = 5 quadlets.
    assert_eq!(sensor.acf_msg_length(), 5);
    assert_eq!(sensor.message_length(), 20);
    assert!(sensor.is_valid());
}

#[test]
fn init_sets_sensor_brief_acf_type() {
    let buf = SensorBrief::initialized(vec![0u8; BRIEF_HEADER_LEN]).unwrap().into_inner();
    let expected = AcfMsgType::SensorBrief.as_u8() << 1;
    assert_eq!(buf[0] & 0xFE, expected);
}

#[test]
fn sensor_brief_header_round_trip() {
    let mut sensor = SensorBrief::initialized(vec![0u8; BRIEF_HEADER_LEN]).unwrap();
    sensor.set_num_sensor(4);
    sensor.set_sensor_size(2);
    sensor.set_sensor_group(11);
    sensor.set_message_timestamp_valid(true);

    assert_eq!(sensor.num_sensor(), 4);
    assert_eq!(sensor.sensor_size(), 2);
    assert_eq!(sensor.sensor_group(), 11);
    assert!(sensor.is_message_timestamp_valid());

    sensor.set_message_timestamp_valid(false);
    assert!(!sensor.is_message_timestamp_valid());
}

#[test]
fn is_valid_after_init() {
    let sensor = SensorBrief::initialized(vec![0u8; 64]).unwrap();
    assert!(sensor.is_valid());
}

#[test]
fn sensor_brief_rejects_short_buffer() {
    assert!(matches!(
        SensorBrief::new(vec![0u8; BRIEF_HEADER_LEN - 1]),
        Err(Error::BufferTooSmall { .. })
    ));
}
