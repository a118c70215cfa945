# open1722

IEEE 1722 (AVTP) protocol data units over plain byte buffers, with every
header accessor proved against a bit-level model of the wire format.

Each PDU format is a wrapper that owns a `Vec<u8>`. `new` wraps bytes that
came off the wire (parser side) and `initialized` clears the header and stamps
the format's type (talker side); both fail with `Error::BufferTooSmall` when
the buffer cannot hold the header. Getters and setters read and write the
header fields in place; the ACF message formats also build and close off a
payload (`create_acf_message`, `set_payload`, `set_payload_length`) and check
their framing (`is_valid`).

## Layout

- `src/field.rs`: the model. `field_value` is the number a run of bits holds
  (most significant bit first), `with_field` the buffer after a field is set.
  The executable readers and writers are proved against them, and the laws of
  fields live here: a read after a set gives the value back, a set leaves
  every other field and byte alone, the last of two sets wins, sets of
  disjoint fields commute.
- `src/pdu.rs`: buffer room checks, clearing, payload copies, the fresh stream
  header.
- `src/acf_common.rs`: the ACF message framing shared by every ACF format
  (type, length in quadlets, pad), with the laws of closing off a payload.
- `src/common.rs`, `src/common_header.rs`: AVTP subtypes, ACF message types
  and the common header used to dispatch on them.
- One module per format: `aaf`, `crf`, `cvf` (with `h264`, `mjpeg`,
  `jpeg2000`), `rvf`, `udp`, and under `acf` the TSCF and NTSCF containers and
  the CAN, CAN Brief, CAN v2, CAN XL, LIN, FlexRay, MOST, GPC, Sensor, Sensor
  Brief, byte-bus, GISF and VSS messages.
- `app/`: the error type with `Display`, and a talker that assembles a UDP,
  TSCF, CAN and LIN frame and prints it.
