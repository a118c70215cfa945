//! ACF MOST message, per IEEE Std 1722-2016.
use vstd::prelude::*;
use vstd::arithmetic::power2::{pow2, lemma2_to64, lemma2_to64_rest};
use crate::common::AcfMsgType;
use crate::error::{Error, Result};
use crate::field::{field_value, with_field, flag_value, read_bits, read_u8, read_u16, read_flag, write_bits, write_flag, lemma_get_after_set, lemma_set_keeps_other_fields};
use crate::pdu::{check_header_room, check_payload_room, with_bytes, payload_room, copy_bytes, pad_len};
use crate::acf_common::{msg_length_of, fresh_message, finalized, declared_payload_len, frame_ok, clamped_len, wire_len, start_message, finalize_message, payload_len_declared, message_frame_ok, payload_slice, message_length_in_bytes, lemma_wire_len_room, lemma_fresh_message, lemma_finalized_frame, lemma_finalized_keeps_field, lemma_with_bytes_keeps_field, msg_type_of, pad_of};

verus! {

broadcast use crate::field::lemma_with_field_len;

/// Size of the MOST message header in bytes.
pub const HEADER_LEN: usize = 20;

/// The payload length a message declares (its length less header and pad),
/// as the 8 bits that `payload_length` returns.
pub open spec fn payload_length_of(bytes: Seq<u8>) -> nat {
    declared_payload_len(bytes, HEADER_LEN as int, true) % 256
}

/// An ACF MOST message.
pub struct Most {
    bytes: Vec<u8>,
}

impl View for Most {
    type V = Seq<u8>;

    closed spec fn view(&self) -> Seq<u8> {
        self.bytes@
    }
}

impl Most {
    /// The buffer holds at least a whole header.
    pub open spec fn wf(&self) -> bool {
        self@.len() >= HEADER_LEN
    }

    /// The header a talker starts from: every header byte cleared and the
    /// message type set to Most.
    pub open spec fn initial(buf: Seq<u8>) -> Seq<u8> {
        fresh_message(buf, HEADER_LEN as int, AcfMsgType::Most.code() as nat)
    }

    /// An initialized MOST message carries ACF message type 4, and a
    /// receiver that reads type 4 takes it for a MOST message.
    pub proof fn lemma_initial_msg_type(buf: Seq<u8>)
        requires
            buf.len() >= HEADER_LEN,
        ensures
            msg_type_of(Self::initial(buf)) == 4,
            AcfMsgType::decode(msg_type_of(Self::initial(buf)) as u8) == Ok::<AcfMsgType, Error>(AcfMsgType::Most),
    {
        AcfMsgType::lemma_wire_codes();
        AcfMsgType::Most.lemma_decode_code();
        lemma_fresh_message(buf, HEADER_LEN as int, AcfMsgType::Most.code() as nat);
    }

    /// Wraps `buf`; fails with [`Error::BufferTooSmall`] when it cannot hold
    /// a whole header.
    pub fn new(buf: Vec<u8>) -> (r: Result<Self>)
        ensures
            r is Ok <==> buf.len() >= HEADER_LEN,
            r matches Ok(p) ==> p@ == buf@,
            r matches Err(e) ==> e == (Error::BufferTooSmall { required: HEADER_LEN, actual: buf.len() }),
    {
        match check_header_room(buf.len(), HEADER_LEN) {
            Ok(()) => Ok(Most { bytes: buf }),
            Err(e) => Err(e),
        }
    }

    /// Wraps `buf` and writes a fresh header into it, as [`Self::initial`]
    /// describes. Use on the talker side.
    pub fn initialized(buf: Vec<u8>) -> (r: Result<Self>)
        ensures
            r is Ok <==> buf.len() >= HEADER_LEN,
            r matches Ok(p) ==> p@ == Self::initial(buf@),
            r matches Err(e) ==> e == (Error::BufferTooSmall { required: HEADER_LEN, actual: buf.len() }),
    {
        match Self::new(buf) {
            Ok(mut pdu) => {
                start_message(&mut pdu.bytes, HEADER_LEN, AcfMsgType::Most.as_u8());
                Ok(pdu)
            },
            Err(e) => Err(e),
        }
    }

    /// The whole buffer.
    pub fn as_bytes(&self) -> (bytes: &[u8])
        ensures
            bytes@ == self@,
    {
        self.bytes.as_slice()
    }

    /// Gives the buffer back.
    pub fn into_inner(self) -> (bytes: Vec<u8>)
        ensures
            bytes@ == self@,
    {
        self.bytes
    }

    /// The whole buffer, for writing.
    pub fn as_bytes_mut(&mut self) -> (bytes: &mut [u8])
        ensures
            bytes@ == old(self)@,
            final(self)@ == final(bytes)@,
    {
        self.bytes.as_mut_slice()
    }

    pub fn net_id(&self) -> (r: u8)
        requires
            self.wf(),
        ensures
            r as nat == field_value(self@, 19, 5),
    {
        read_u8(&self.bytes, 0, 19, 5)
    }

    pub fn device_id(&self) -> (r: u16)
        requires
            self.wf(),
        ensures
            r as nat == field_value(self@, 96, 16),
    {
        read_u16(&self.bytes, 3, 0, 16)
    }

    pub fn fblock_id(&self) -> (r: u8)
        requires
            self.wf(),
        ensures
            r as nat == field_value(self@, 112, 8),
    {
        read_u8(&self.bytes, 3, 16, 8)
    }

    pub fn instance_id(&self) -> (r: u8)
        requires
            self.wf(),
        ensures
            r as nat == field_value(self@, 120, 8),
    {
        read_u8(&self.bytes, 3, 24, 8)
    }

    pub fn function_id(&self) -> (r: u16)
        requires
            self.wf(),
        ensures
            r as nat == field_value(self@, 128, 12),
    {
        read_u16(&self.bytes, 4, 0, 12)
    }

    pub fn op_type(&self) -> (r: u8)
        requires
            self.wf(),
        ensures
            r as nat == field_value(self@, 140, 4),
    {
        read_u8(&self.bytes, 4, 12, 4)
    }

    pub fn message_timestamp(&self) -> (r: u64)
        requires
            self.wf(),
        ensures
            r as nat == field_value(self@, 32, 64),
    {
        read_bits(&self.bytes, 1, 0, 64)
    }

    /// Length of the ACF message in quadlets (header, payload and pad).
    pub fn acf_msg_length(&self) -> (r: u16)
        requires
            self.wf(),
        ensures
            r as nat == msg_length_of(self@),
    {
        read_u16(&self.bytes, 0, 7, 9)
    }

    /// Total message length in bytes (header, payload and pad).
    pub fn message_length(&self) -> (r: u16)
        requires
            self.wf(),
        ensures
            r as nat == 4 * msg_length_of(self@),
    {
        message_length_in_bytes(&self.bytes)
    }

    pub fn pad(&self) -> (r: u8)
        requires
            self.wf(),
        ensures
            r as nat == field_value(self@, 16, 2),
    {
        read_u8(&self.bytes, 0, 16, 2)
    }

    /// `mtv`: `message_timestamp` carries a meaningful value.
    pub fn is_message_timestamp_valid(&self) -> (r: bool)
        requires
            self.wf(),
        ensures
            r == (field_value(self@, 18, 1) == 1),
    {
        read_flag(&self.bytes, 0, 18)
    }

    /// Payload slice, cut at the end of the buffer.
    pub fn payload(&self) -> (p: &[u8])
        requires
            self.wf(),
        ensures
            p@ == self@.subrange(
                HEADER_LEN as int,
                HEADER_LEN + clamped_len(payload_length_of(self@) as int, HEADER_LEN as int, self@.len() as int),
            ),
    {
        let len = self.payload_length() as usize;
        payload_slice(&self.bytes, HEADER_LEN, len)
    }

    /// Payload length in bytes (excludes header and trailing pad).
    pub fn payload_length(&self) -> (r: u8)
        requires
            self.wf(),
        ensures
            r as nat == payload_length_of(self@),
    {
        (payload_len_declared(&self.bytes, HEADER_LEN, true) % 256) as u8
    }

    /// Structural validity: the message type matches and the declared
    /// length covers the header and fits the buffer.
    pub fn is_valid(&self) -> (ok: bool)
        requires
            self.wf(),
        ensures
            ok == frame_ok(self@, HEADER_LEN as int, AcfMsgType::Most.code() as nat),
    {
        message_frame_ok(&self.bytes, HEADER_LEN, AcfMsgType::Most.as_u8())
    }

    pub fn set_net_id(&mut self, value: u8)
        requires
            old(self).wf(),
        ensures
            final(self)@ == with_field(old(self)@, 19, 5, value as nat),
    {
        write_bits(&mut self.bytes, 0, 19, 5, value as u64);
    }

    pub fn set_device_id(&mut self, value: u16)
        requires
            old(self).wf(),
        ensures
            final(self)@ == with_field(old(self)@, 96, 16, value as nat),
    {
        write_bits(&mut self.bytes, 3, 0, 16, value as u64);
    }

    pub fn set_fblock_id(&mut self, value: u8)
        requires
            old(self).wf(),
        ensures
            final(self)@ == with_field(old(self)@, 112, 8, value as nat),
    {
        write_bits(&mut self.bytes, 3, 16, 8, value as u64);
    }

    pub fn set_instance_id(&mut self, value: u8)
        requires
            old(self).wf(),
        ensures
            final(self)@ == with_field(old(self)@, 120, 8, value as nat),
    {
        write_bits(&mut self.bytes, 3, 24, 8, value as u64);
    }

    pub fn set_function_id(&mut self, value: u16)
        requires
            old(self).wf(),
        ensures
            final(self)@ == with_field(old(self)@, 128, 12, value as nat),
    {
        write_bits(&mut self.bytes, 4, 0, 12, value as u64);
    }

    pub fn set_op_type(&mut self, value: u8)
        requires
            old(self).wf(),
        ensures
            final(self)@ == with_field(old(self)@, 140, 4, value as nat),
    {
        write_bits(&mut self.bytes, 4, 12, 4, value as u64);
    }

    pub fn set_message_timestamp(&mut self, value: u64)
        requires
            old(self).wf(),
        ensures
            final(self)@ == with_field(old(self)@, 32, 64, value as nat),
    {
        write_bits(&mut self.bytes, 1, 0, 64, value as u64);
    }

    pub fn set_message_timestamp_valid(&mut self, value: bool)
        requires
            old(self).wf(),
        ensures
            final(self)@ == with_field(old(self)@, 18, 1, flag_value(value)),
    {
        write_flag(&mut self.bytes, 0, 18, value);
    }

    /// Sets the ACF message length (in quadlets) directly. Normally not
    /// needed: `create_acf_message` and `set_payload_length` compute it from
    /// the payload size.
    pub fn set_acf_msg_length(&mut self, value: u16)
        requires
            old(self).wf(),
        ensures
            final(self)@ == with_field(old(self)@, 7, 9, value as nat),
    {
        write_bits(&mut self.bytes, 0, 7, 9, value as u64);
    }

    /// The bytes [`Self::create_acf_message`] leaves behind.
    pub open spec fn created(bytes: Seq<u8>, device_id: u16, fblock_id: u8, instance_id: u8, function_id: u16, op_type: u8, payload: Seq<u8>) -> Seq<u8> {
        let n = wire_len(payload.len());
        let base = fresh_message(bytes, HEADER_LEN as int, AcfMsgType::Most.code() as nat);
        let s0 = with_field(base, 96, 16, device_id as nat);
        let s1 = with_field(s0, 112, 8, fblock_id as nat);
        let s2 = with_field(s1, 120, 8, instance_id as nat);
        let s3 = with_field(s2, 128, 12, function_id as nat);
        let s4 = with_field(s3, 140, 4, op_type as nat);
        finalized(with_bytes(s4, HEADER_LEN as int, payload.take(n as int)), HEADER_LEN as int, n as int, true)
    }

    /// Building a message and reading it back gives what went in: every field
    /// [`Self::create_acf_message`] sets holds its value, the payload reads back
    /// unchanged, the declared length covers header, payload and pad, and the
    /// framing is one a receiver accepts.
    /// Holds for values that fit their fields and payloads whose
    /// message length fits its 9-bit field.
    pub proof fn lemma_create_round_trip(bytes: Seq<u8>, device_id: u16, fblock_id: u8, instance_id: u8, function_id: u16, op_type: u8, payload: Seq<u8>)
        requires
            HEADER_LEN + payload.len() + pad_len(payload.len() as int) <= bytes.len(),
            HEADER_LEN + payload.len() + pad_len(payload.len() as int) < 2048,
            function_id < 0x1000,
            op_type < 0x10,
        ensures
            ({
                let c = Self::created(bytes, device_id, fblock_id, instance_id, function_id, op_type, payload);
                &&& field_value(c, 96, 16) == device_id as nat
                &&& field_value(c, 112, 8) == fblock_id as nat
                &&& field_value(c, 120, 8) == instance_id as nat
                &&& field_value(c, 128, 12) == function_id as nat
                &&& field_value(c, 140, 4) == op_type as nat
                &&& c.subrange(HEADER_LEN as int, HEADER_LEN + payload.len()) == payload
                &&& declared_payload_len(c, HEADER_LEN as int, true) == payload.len()
                &&& pad_of(c) == pad_len(payload.len() as int)
                &&& 4 * msg_length_of(c) == HEADER_LEN + payload.len() + pad_len(payload.len() as int)
                &&& msg_type_of(c) == AcfMsgType::Most.code() as nat
                &&& frame_ok(c, HEADER_LEN as int, AcfMsgType::Most.code() as nat)
            }),
    {
        let n = payload.len();
        let base = fresh_message(bytes, HEADER_LEN as int, AcfMsgType::Most.code() as nat);
        let s0 = with_field(base, 96, 16, device_id as nat);
        let s1 = with_field(s0, 112, 8, fblock_id as nat);
        let s2 = with_field(s1, 120, 8, instance_id as nat);
        let s3 = with_field(s2, 128, 12, function_id as nat);
        let s4 = with_field(s3, 140, 4, op_type as nat);
        let wb = with_bytes(s4, HEADER_LEN as int, payload);
        lemma2_to64();
        lemma2_to64_rest();
        assert(wire_len(n) == n);
        assert(payload.take(n as int) =~= payload);
        lemma_fresh_message(bytes, HEADER_LEN as int, AcfMsgType::Most.code() as nat);
        lemma_finalized_frame(wb, HEADER_LEN as int, n as int, true);
        lemma_with_bytes_keeps_field(s4, HEADER_LEN as int, payload, 0, 7);
        lemma_set_keeps_other_fields(base, 96, 16, device_id as nat, 0, 7);
        lemma_set_keeps_other_fields(s0, 112, 8, fblock_id as nat, 0, 7);
        lemma_set_keeps_other_fields(s1, 120, 8, instance_id as nat, 0, 7);
        lemma_set_keeps_other_fields(s2, 128, 12, function_id as nat, 0, 7);
        lemma_set_keeps_other_fields(s3, 140, 4, op_type as nat, 0, 7);
        lemma_finalized_keeps_field(wb, HEADER_LEN as int, n as int, true, 96, 16);
        lemma_with_bytes_keeps_field(s4, HEADER_LEN as int, payload, 96, 16);
        lemma_set_keeps_other_fields(s0, 112, 8, fblock_id as nat, 96, 16);
        lemma_set_keeps_other_fields(s1, 120, 8, instance_id as nat, 96, 16);
        lemma_set_keeps_other_fields(s2, 128, 12, function_id as nat, 96, 16);
        lemma_set_keeps_other_fields(s3, 140, 4, op_type as nat, 96, 16);
        lemma_get_after_set(base, 96, 16, device_id as nat);
        vstd::arithmetic::div_mod::lemma_small_mod(device_id as nat, pow2(16));
        lemma_finalized_keeps_field(wb, HEADER_LEN as int, n as int, true, 112, 8);
        lemma_with_bytes_keeps_field(s4, HEADER_LEN as int, payload, 112, 8);
        lemma_set_keeps_other_fields(s1, 120, 8, instance_id as nat, 112, 8);
        lemma_set_keeps_other_fields(s2, 128, 12, function_id as nat, 112, 8);
        lemma_set_keeps_other_fields(s3, 140, 4, op_type as nat, 112, 8);
        lemma_get_after_set(s0, 112, 8, fblock_id as nat);
        vstd::arithmetic::div_mod::lemma_small_mod(fblock_id as nat, pow2(8));
        lemma_finalized_keeps_field(wb, HEADER_LEN as int, n as int, true, 120, 8);
        lemma_with_bytes_keeps_field(s4, HEADER_LEN as int, payload, 120, 8);
        lemma_set_keeps_other_fields(s2, 128, 12, function_id as nat, 120, 8);
        lemma_set_keeps_other_fields(s3, 140, 4, op_type as nat, 120, 8);
        lemma_get_after_set(s1, 120, 8, instance_id as nat);
        vstd::arithmetic::div_mod::lemma_small_mod(instance_id as nat, pow2(8));
        lemma_finalized_keeps_field(wb, HEADER_LEN as int, n as int, true, 128, 12);
        lemma_with_bytes_keeps_field(s4, HEADER_LEN as int, payload, 128, 12);
        lemma_set_keeps_other_fields(s3, 140, 4, op_type as nat, 128, 12);
        lemma_get_after_set(s2, 128, 12, function_id as nat);
        vstd::arithmetic::div_mod::lemma_small_mod(function_id as nat, pow2(12));
        lemma_finalized_keeps_field(wb, HEADER_LEN as int, n as int, true, 140, 4);
        lemma_with_bytes_keeps_field(s4, HEADER_LEN as int, payload, 140, 4);
        lemma_get_after_set(s3, 140, 4, op_type as nat);
        vstd::arithmetic::div_mod::lemma_small_mod(op_type as nat, pow2(4));
        assert(wb.subrange(HEADER_LEN as int, HEADER_LEN + n) =~= payload);
    }


    /// Copies `payload` into the message, sets the MOST addressing fields,
    /// and finalizes the length and pad fields. Any header fields set before
    /// this call are reset; set additional fields after building the message.
    /// Fails with [`Error::BufferTooSmall`], changing nothing, when the buffer
    /// cannot hold the header and the padded payload.
    pub fn create_acf_message(&mut self, device_id: u16, fblock_id: u8, instance_id: u8, function_id: u16, op_type: u8, payload: &[u8]) -> (r: Result<()>)
        requires
            old(self).wf(),
        ensures
            r == payload_room(old(self)@.len() as usize, payload.len(), HEADER_LEN),
            r is Ok ==> final(self)@ == Self::created(old(self)@, device_id, fblock_id, instance_id, function_id, op_type, payload@),
            r is Err ==> final(self)@ == old(self)@,
    {
        match check_payload_room(self.bytes.len(), payload.len(), HEADER_LEN) {
            Ok(()) => {
                proof {
                    lemma_wire_len_room(HEADER_LEN as int, payload@.len(), self@.len() as int);
                }
                let n = payload.len() % 0x10000;
                start_message(&mut self.bytes, HEADER_LEN, AcfMsgType::Most.as_u8());
                write_bits(&mut self.bytes, 3, 0, 16, device_id as u64);
                write_bits(&mut self.bytes, 3, 16, 8, fblock_id as u64);
                write_bits(&mut self.bytes, 3, 24, 8, instance_id as u64);
                write_bits(&mut self.bytes, 4, 0, 12, function_id as u64);
                write_bits(&mut self.bytes, 4, 12, 4, op_type as u64);
                copy_bytes(&mut self.bytes, HEADER_LEN, payload, n);
                finalize_message(&mut self.bytes, HEADER_LEN, n, true);
                Ok(())
            },
            Err(e) => Err(e),
        }
    }

    /// Writes the payload bytes only, without touching other header fields
    /// or the length. Pair with [`Self::set_payload_length`]. Fails with
    /// [`Error::BufferTooSmall`], changing nothing, when the buffer cannot hold
    /// the header and the padded payload.
    pub fn set_payload(&mut self, payload: &[u8]) -> (r: Result<()>)
        requires
            old(self).wf(),
        ensures
            r == payload_room(old(self)@.len() as usize, payload.len(), HEADER_LEN),
            r is Ok ==> final(self)@ == with_bytes(
                old(self)@,
                HEADER_LEN as int,
                payload@.take(wire_len(payload@.len()) as int),
            ),
            r is Err ==> final(self)@ == old(self)@,
    {
        match check_payload_room(self.bytes.len(), payload.len(), HEADER_LEN) {
            Ok(()) => {
                proof {
                    lemma_wire_len_room(HEADER_LEN as int, payload@.len(), self@.len() as int);
                }
                let n = payload.len() % 0x10000;
                copy_bytes(&mut self.bytes, HEADER_LEN, payload, n);
                Ok(())
            },
            Err(e) => Err(e),
        }
    }

    /// Sets the ACF message length and pad fields for a payload of the
    /// given size, zeroing the pad bytes. The payload bytes themselves must
    /// already be in place. Fails with [`Error::BufferTooSmall`], changing
    /// nothing, when the buffer cannot hold the header and the padded payload.
    pub fn set_payload_length(&mut self, payload_length: u16) -> (r: Result<()>)
        requires
            old(self).wf(),
        ensures
            r == payload_room(old(self)@.len() as usize, payload_length as usize, HEADER_LEN),
            r is Ok ==> final(self)@ == finalized(old(self)@, HEADER_LEN as int, payload_length as int, true),
            r is Err ==> final(self)@ == old(self)@,
    {
        match check_payload_room(self.bytes.len(), payload_length as usize, HEADER_LEN) {
            Ok(()) => {
                finalize_message(&mut self.bytes, HEADER_LEN, payload_length as usize, true);
                Ok(())
            },
            Err(e) => Err(e),
        }
    }
}

} // verus!
