//! ACF Sensor message, per IEEE Std 1722-2016.
use vstd::prelude::*;
use vstd::arithmetic::power2::{pow2, lemma2_to64, lemma2_to64_rest};
use crate::common::AcfMsgType;
use crate::error::{Error, Result};
use crate::field::{field_value, with_field, flag_value, read_bits, read_u8, read_u16, read_flag, write_bits, write_flag, lemma_get_after_set, lemma_set_keeps_other_fields};
use crate::pdu::{check_header_room, check_payload_room, with_bytes, payload_room, copy_bytes, pad_len};
use crate::acf_common::{msg_length_of, fresh_message, finalized, frame_ok, clamped_len, wire_len, start_message, finalize_message, message_frame_ok, payload_slice, message_length_in_bytes, lemma_wire_len_room, lemma_fresh_message, lemma_finalized_frame, lemma_finalized_keeps_field, lemma_with_bytes_keeps_field, msg_type_of, declared_payload_len};

verus! {

broadcast use crate::field::lemma_with_field_len;

/// Size of the Sensor message header in bytes.
pub const HEADER_LEN: usize = 12;

/// Width of one sensor reading in octets for the `sz` code: codes 1 to 3
/// give their own value, and code 0 stands for 4 octets.
pub open spec fn reading_width(sz: nat) -> nat {
    if sz == 0 {
        4
    } else {
        sz
    }
}

/// Payload length of a Sensor message: its readings times the width of
/// each reading.
pub open spec fn payload_length_of(bytes: Seq<u8>) -> nat {
    field_value(bytes, 17, 7) * reading_width(field_value(bytes, 24, 2))
}

/// An ACF Sensor message.
pub struct Sensor {
    bytes: Vec<u8>,
}

impl View for Sensor {
    type V = Seq<u8>;

    closed spec fn view(&self) -> Seq<u8> {
        self.bytes@
    }
}

impl Sensor {
    /// The buffer holds at least a whole header.
    pub open spec fn wf(&self) -> bool {
        self@.len() >= HEADER_LEN
    }

    /// The header a talker starts from: every header byte cleared and the
    /// message type set to Sensor.
    pub open spec fn initial(buf: Seq<u8>) -> Seq<u8> {
        fresh_message(buf, HEADER_LEN as int, AcfMsgType::Sensor.code() as nat)
    }

    /// Wraps `buf`; fails with [`Error::BufferTooSmall`] when it cannot hold
    /// a whole header.
    pub fn new(buf: Vec<u8>) -> (r: Result<Self>)
        ensures
            r is Ok <==> buf.len() >= HEADER_LEN,
            r matches Ok(p) ==> p@ == buf@,
            r matches Err(e) ==> e == (Error::BufferTooSmall { required: HEADER_LEN, actual: buf.len() }),
    {
        match check_header_room(buf.len(), HEADER_LEN) {
            Ok(()) => Ok(Sensor { bytes: buf }),
            Err(e) => Err(e),
        }
    }

    /// Wraps `buf` and writes a fresh header into it, as [`Self::initial`]
    /// describes. Use on the talker side.
    pub fn initialized(buf: Vec<u8>) -> (r: Result<Self>)
        ensures
            r is Ok <==> buf.len() >= HEADER_LEN,
            r matches Ok(p) ==> p@ == Self::initial(buf@),
            r matches Err(e) ==> e == (Error::BufferTooSmall { required: HEADER_LEN, actual: buf.len() }),
    {
        match Self::new(buf) {
            Ok(mut pdu) => {
                start_message(&mut pdu.bytes, HEADER_LEN, AcfMsgType::Sensor.as_u8());
                Ok(pdu)
            },
            Err(e) => Err(e),
        }
    }

    /// The whole buffer.
    pub fn as_bytes(&self) -> (bytes: &[u8])
        ensures
            bytes@ == self@,
    {
        self.bytes.as_slice()
    }

    /// Gives the buffer back.
    pub fn into_inner(self) -> (bytes: Vec<u8>)
        ensures
            bytes@ == self@,
    {
        self.bytes
    }

    /// The whole buffer, for writing.
    pub fn as_bytes_mut(&mut self) -> (bytes: &mut [u8])
        ensures
            bytes@ == old(self)@,
            final(self)@ == final(bytes)@,
    {
        self.bytes.as_mut_slice()
    }

    /// Number of sensor readings carried in the payload.
    pub fn num_sensor(&self) -> (r: u8)
        requires
            self.wf(),
        ensures
            r as nat == field_value(self@, 17, 7),
    {
        read_u8(&self.bytes, 0, 17, 7)
    }

    /// `sz`: encoded width of each sensor reading.
    pub fn sensor_size(&self) -> (r: u8)
        requires
            self.wf(),
        ensures
            r as nat == field_value(self@, 24, 2),
    {
        read_u8(&self.bytes, 0, 24, 2)
    }

    pub fn sensor_group(&self) -> (r: u8)
        requires
            self.wf(),
        ensures
            r as nat == field_value(self@, 26, 6),
    {
        read_u8(&self.bytes, 0, 26, 6)
    }

    pub fn message_timestamp(&self) -> (r: u64)
        requires
            self.wf(),
        ensures
            r as nat == field_value(self@, 32, 64),
    {
        read_bits(&self.bytes, 1, 0, 64)
    }

    /// Length of the ACF message in quadlets (header, payload and pad).
    pub fn acf_msg_length(&self) -> (r: u16)
        requires
            self.wf(),
        ensures
            r as nat == msg_length_of(self@),
    {
        read_u16(&self.bytes, 0, 7, 9)
    }

    /// Total message length in bytes (header, payload and pad).
    pub fn message_length(&self) -> (r: u16)
        requires
            self.wf(),
        ensures
            r as nat == 4 * msg_length_of(self@),
    {
        message_length_in_bytes(&self.bytes)
    }

    /// `mtv`: `message_timestamp` carries a meaningful value.
    pub fn is_message_timestamp_valid(&self) -> (r: bool)
        requires
            self.wf(),
        ensures
            r == (field_value(self@, 16, 1) == 1),
    {
        read_flag(&self.bytes, 0, 16)
    }

    /// Payload slice, cut at the end of the buffer.
    pub fn payload(&self) -> (p: &[u8])
        requires
            self.wf(),
        ensures
            p@ == self@.subrange(
                HEADER_LEN as int,
                HEADER_LEN + clamped_len(payload_length_of(self@) as int, HEADER_LEN as int, self@.len() as int),
            ),
    {
        let len = self.payload_length() as usize;
        payload_slice(&self.bytes, HEADER_LEN, len)
    }

    /// Payload length in bytes: the number of readings times the width of
    /// each, as [`reading_width`] decodes it from `sz`.
    pub fn payload_length(&self) -> (r: u16)
        requires
            self.wf(),
        ensures
            r as nat == payload_length_of(self@),
    {
        let count = self.num_sensor() as u16;
        let sz = self.sensor_size() as u16;
        let width: u16 = if sz == 0 {
            4
        } else {
            sz
        };
        proof {
            crate::field::lemma_field_value_bound(self@, 17, 7);
            crate::field::lemma_field_value_bound(self@, 24, 2);
            vstd::arithmetic::power2::lemma2_to64();
            vstd::arithmetic::mul::lemma_mul_upper_bound(count as int, 127, width as int, 4);
        }
        count * width
    }

    /// Structural validity: the message type matches and the declared
    /// length covers the header and fits the buffer.
    pub fn is_valid(&self) -> (ok: bool)
        requires
            self.wf(),
        ensures
            ok == frame_ok(self@, HEADER_LEN as int, AcfMsgType::Sensor.code() as nat),
    {
        message_frame_ok(&self.bytes, HEADER_LEN, AcfMsgType::Sensor.as_u8())
    }

    pub fn set_num_sensor(&mut self, value: u8)
        requires
            old(self).wf(),
        ensures
            final(self)@ == with_field(old(self)@, 17, 7, value as nat),
    {
        write_bits(&mut self.bytes, 0, 17, 7, value as u64);
    }

    pub fn set_sensor_size(&mut self, value: u8)
        requires
            old(self).wf(),
        ensures
            final(self)@ == with_field(old(self)@, 24, 2, value as nat),
    {
        write_bits(&mut self.bytes, 0, 24, 2, value as u64);
    }

    pub fn set_sensor_group(&mut self, value: u8)
        requires
            old(self).wf(),
        ensures
            final(self)@ == with_field(old(self)@, 26, 6, value as nat),
    {
        write_bits(&mut self.bytes, 0, 26, 6, value as u64);
    }

    pub fn set_message_timestamp(&mut self, value: u64)
        requires
            old(self).wf(),
        ensures
            final(self)@ == with_field(old(self)@, 32, 64, value as nat),
    {
        write_bits(&mut self.bytes, 1, 0, 64, value as u64);
    }

    pub fn set_message_timestamp_valid(&mut self, value: bool)
        requires
            old(self).wf(),
        ensures
            final(self)@ == with_field(old(self)@, 16, 1, flag_value(value)),
    {
        write_flag(&mut self.bytes, 0, 16, value);
    }

    /// Sets the ACF message length (in quadlets) directly. Normally not
    /// needed: `create_acf_message` and `set_payload_length` compute it from
    /// the payload size.
    pub fn set_acf_msg_length(&mut self, value: u16)
        requires
            old(self).wf(),
        ensures
            final(self)@ == with_field(old(self)@, 7, 9, value as nat),
    {
        write_bits(&mut self.bytes, 0, 7, 9, value as u64);
    }

    /// The bytes [`Self::create_acf_message`] leaves behind.
    pub open spec fn created(bytes: Seq<u8>, num_sensor: u8, sensor_size: u8, payload: Seq<u8>) -> Seq<u8> {
        let n = wire_len(payload.len());
        let base = fresh_message(bytes, HEADER_LEN as int, AcfMsgType::Sensor.code() as nat);
        let s0 = with_field(base, 17, 7, num_sensor as nat);
        let s1 = with_field(s0, 24, 2, sensor_size as nat);
        finalized(with_bytes(s1, HEADER_LEN as int, payload.take(n as int)), HEADER_LEN as int, n as int, false)
    }

    /// Building a message and reading it back gives what went in: every field
    /// [`Self::create_acf_message`] sets holds its value, the payload reads back
    /// unchanged, the declared length covers header, payload and pad, and the
    /// framing is one a receiver accepts.
    /// Holds for values that fit their fields and payloads whose
    /// message length fits its 9-bit field.
    pub proof fn lemma_create_round_trip(bytes: Seq<u8>, num_sensor: u8, sensor_size: u8, payload: Seq<u8>)
        requires
            HEADER_LEN + payload.len() + pad_len(payload.len() as int) <= bytes.len(),
            HEADER_LEN + payload.len() + pad_len(payload.len() as int) < 2048,
            num_sensor < 0x80,
            sensor_size < 0x4,
        ensures
            ({
                let c = Self::created(bytes, num_sensor, sensor_size, payload);
                &&& field_value(c, 17, 7) == num_sensor as nat
                &&& field_value(c, 24, 2) == sensor_size as nat
                &&& c.subrange(HEADER_LEN as int, HEADER_LEN + payload.len()) == payload
                &&& declared_payload_len(c, HEADER_LEN as int, false) == payload.len() + pad_len(payload.len() as int)
                &&& 4 * msg_length_of(c) == HEADER_LEN + payload.len() + pad_len(payload.len() as int)
                &&& msg_type_of(c) == AcfMsgType::Sensor.code() as nat
                &&& frame_ok(c, HEADER_LEN as int, AcfMsgType::Sensor.code() as nat)
            }),
    {
        let n = payload.len();
        let base = fresh_message(bytes, HEADER_LEN as int, AcfMsgType::Sensor.code() as nat);
        let s0 = with_field(base, 17, 7, num_sensor as nat);
        let s1 = with_field(s0, 24, 2, sensor_size as nat);
        let wb = with_bytes(s1, HEADER_LEN as int, payload);
        lemma2_to64();
        lemma2_to64_rest();
        assert(wire_len(n) == n);
        assert(payload.take(n as int) =~= payload);
        lemma_fresh_message(bytes, HEADER_LEN as int, AcfMsgType::Sensor.code() as nat);
        lemma_finalized_frame(wb, HEADER_LEN as int, n as int, false);
        lemma_with_bytes_keeps_field(s1, HEADER_LEN as int, payload, 0, 7);
        lemma_set_keeps_other_fields(base, 17, 7, num_sensor as nat, 0, 7);
        lemma_set_keeps_other_fields(s0, 24, 2, sensor_size as nat, 0, 7);
        lemma_finalized_keeps_field(wb, HEADER_LEN as int, n as int, false, 17, 7);
        lemma_with_bytes_keeps_field(s1, HEADER_LEN as int, payload, 17, 7);
        lemma_set_keeps_other_fields(s0, 24, 2, sensor_size as nat, 17, 7);
        lemma_get_after_set(base, 17, 7, num_sensor as nat);
        vstd::arithmetic::div_mod::lemma_small_mod(num_sensor as nat, pow2(7));
        lemma_finalized_keeps_field(wb, HEADER_LEN as int, n as int, false, 24, 2);
        lemma_with_bytes_keeps_field(s1, HEADER_LEN as int, payload, 24, 2);
        lemma_get_after_set(s0, 24, 2, sensor_size as nat);
        vstd::arithmetic::div_mod::lemma_small_mod(sensor_size as nat, pow2(2));
        assert(wb.subrange(HEADER_LEN as int, HEADER_LEN + n) =~= payload);
    }


    /// Copies `payload` into the message, sets the sensor count and reading
    /// size, and finalizes the length. Any header fields set before this call
    /// are reset; set additional fields after building the message. Fails with
    /// [`Error::BufferTooSmall`], changing nothing, when the buffer cannot hold
    /// the header and the padded payload.
    pub fn create_acf_message(&mut self, num_sensor: u8, sensor_size: u8, payload: &[u8]) -> (r: Result<()>)
        requires
            old(self).wf(),
        ensures
            r == payload_room(old(self)@.len() as usize, payload.len(), HEADER_LEN),
            r is Ok ==> final(self)@ == Self::created(old(self)@, num_sensor, sensor_size, payload@),
            r is Err ==> final(self)@ == old(self)@,
    {
        match check_payload_room(self.bytes.len(), payload.len(), HEADER_LEN) {
            Ok(()) => {
                proof {
                    lemma_wire_len_room(HEADER_LEN as int, payload@.len(), self@.len() as int);
                }
                let n = payload.len() % 0x10000;
                start_message(&mut self.bytes, HEADER_LEN, AcfMsgType::Sensor.as_u8());
                write_bits(&mut self.bytes, 0, 17, 7, num_sensor as u64);
                write_bits(&mut self.bytes, 0, 24, 2, sensor_size as u64);
                copy_bytes(&mut self.bytes, HEADER_LEN, payload, n);
                finalize_message(&mut self.bytes, HEADER_LEN, n, false);
                Ok(())
            },
            Err(e) => Err(e),
        }
    }

    /// Writes the payload bytes only, without touching other header fields
    /// or the length. Pair with [`Self::set_payload_length`]. Fails with
    /// [`Error::BufferTooSmall`], changing nothing, when the buffer cannot hold
    /// the header and the padded payload.
    pub fn set_payload(&mut self, payload: &[u8]) -> (r: Result<()>)
        requires
            old(self).wf(),
        ensures
            r == payload_room(old(self)@.len() as usize, payload.len(), HEADER_LEN),
            r is Ok ==> final(self)@ == with_bytes(
                old(self)@,
                HEADER_LEN as int,
                payload@.take(wire_len(payload@.len()) as int),
            ),
            r is Err ==> final(self)@ == old(self)@,
    {
        match check_payload_room(self.bytes.len(), payload.len(), HEADER_LEN) {
            Ok(()) => {
                proof {
                    lemma_wire_len_room(HEADER_LEN as int, payload@.len(), self@.len() as int);
                }
                let n = payload.len() % 0x10000;
                copy_bytes(&mut self.bytes, HEADER_LEN, payload, n);
                Ok(())
            },
            Err(e) => Err(e),
        }
    }

    /// Sets the ACF message length for a payload of the given size, zeroing
    /// the trailing pad bytes. The format has no pad field: the padding is
    /// implied by the quadlet-aligned length. The payload bytes themselves
    /// must already be in place. Fails with [`Error::BufferTooSmall`], changing
    /// nothing, when the buffer cannot hold the header and the padded payload.
    pub fn set_payload_length(&mut self, payload_length: u16) -> (r: Result<()>)
        requires
            old(self).wf(),
        ensures
            r == payload_room(old(self)@.len() as usize, payload_length as usize, HEADER_LEN),
            r is Ok ==> final(self)@ == finalized(old(self)@, HEADER_LEN as int, payload_length as int, false),
            r is Err ==> final(self)@ == old(self)@,
    {
        match check_payload_room(self.bytes.len(), payload_length as usize, HEADER_LEN) {
            Ok(()) => {
                finalize_message(&mut self.bytes, HEADER_LEN, payload_length as usize, false);
                Ok(())
            },
            Err(e) => Err(e),
        }
    }
}

} // verus!
