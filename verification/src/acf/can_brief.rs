//! ACF CAN Brief message, per IEEE Std 1722-2016: the smaller CAN ACF
//! variant that omits the per-message timestamp.
use vstd::prelude::*;
use vstd::arithmetic::power2::{pow2, lemma2_to64, lemma2_to64_rest};
use crate::acf::can::Variant;
use crate::common::AcfMsgType;
use crate::error::{Error, Result};
use crate::field::{field_value, with_field, flag_value, read_u8, read_u16, read_u32, read_flag, write_bits, write_flag, lemma_get_after_set, lemma_set_keeps_other_fields};
use crate::pdu::{check_header_room, check_payload_room, with_bytes, payload_room, copy_bytes, pad_len};
use crate::acf_common::{fresh_message, finalized, declared_payload_len, frame_ok, wire_len, start_message, finalize_message, payload_len_declared, message_frame_ok, payload_slice, lemma_wire_len_room, can_payload_fits, can_payload_fits_framing, lemma_finalized_frame, lemma_finalized_keeps_field, lemma_with_bytes_keeps_field, msg_type_of, pad_of, msg_length_of};

verus! {

broadcast use crate::field::lemma_with_field_len;

/// Size of the CAN Brief message header in bytes.
pub const HEADER_LEN: usize = 8;

/// The payload length a message declares (its length less header and pad),
/// as the 8 bits that `payload_length` returns.
pub open spec fn payload_length_of(bytes: Seq<u8>) -> nat {
    declared_payload_len(bytes, HEADER_LEN as int, true) % 256
}

/// An ACF CAN Brief message.
pub struct CanBrief {
    bytes: Vec<u8>,
}

impl View for CanBrief {
    type V = Seq<u8>;

    closed spec fn view(&self) -> Seq<u8> {
        self.bytes@
    }
}

impl CanBrief {
    /// The buffer holds at least a whole header.
    pub open spec fn wf(&self) -> bool {
        self@.len() >= HEADER_LEN
    }

    /// The header a talker starts from: every header byte cleared and the
    /// message type set to CanBrief.
    pub open spec fn initial(buf: Seq<u8>) -> Seq<u8> {
        fresh_message(buf, HEADER_LEN as int, AcfMsgType::CanBrief.code() as nat)
    }

    /// Wraps `buf`; fails with [`Error::BufferTooSmall`] when it cannot hold
    /// a whole header.
    pub fn new(buf: Vec<u8>) -> (r: Result<Self>)
        ensures
            r is Ok <==> buf.len() >= HEADER_LEN,
            r matches Ok(p) ==> p@ == buf@,
            r matches Err(e) ==> e == (Error::BufferTooSmall { required: HEADER_LEN, actual: buf.len() }),
    {
        match check_header_room(buf.len(), HEADER_LEN) {
            Ok(()) => Ok(CanBrief { bytes: buf }),
            Err(e) => Err(e),
        }
    }

    /// Wraps `buf` and writes a fresh header into it, as [`Self::initial`]
    /// describes. Use on the talker side.
    pub fn initialized(buf: Vec<u8>) -> (r: Result<Self>)
        ensures
            r is Ok <==> buf.len() >= HEADER_LEN,
            r matches Ok(p) ==> p@ == Self::initial(buf@),
            r matches Err(e) ==> e == (Error::BufferTooSmall { required: HEADER_LEN, actual: buf.len() }),
    {
        match Self::new(buf) {
            Ok(mut pdu) => {
                start_message(&mut pdu.bytes, HEADER_LEN, AcfMsgType::CanBrief.as_u8());
                Ok(pdu)
            },
            Err(e) => Err(e),
        }
    }

    /// The whole buffer.
    pub fn as_bytes(&self) -> (bytes: &[u8])
        ensures
            bytes@ == self@,
    {
        self.bytes.as_slice()
    }

    /// Gives the buffer back.
    pub fn into_inner(self) -> (bytes: Vec<u8>)
        ensures
            bytes@ == self@,
    {
        self.bytes
    }

    /// The whole buffer, for writing.
    pub fn as_bytes_mut(&mut self) -> (bytes: &mut [u8])
        ensures
            bytes@ == old(self)@,
            final(self)@ == final(bytes)@,
    {
        self.bytes.as_mut_slice()
    }

    pub fn bus_id(&self) -> (r: u8)
        requires
            self.wf(),
        ensures
            r as nat == field_value(self@, 27, 5),
    {
        read_u8(&self.bytes, 0, 27, 5)
    }

    pub fn identifier(&self) -> (r: u32)
        requires
            self.wf(),
        ensures
            r as nat == field_value(self@, 35, 29),
    {
        read_u32(&self.bytes, 1, 3, 29)
    }

    /// Length of the ACF message in quadlets (header, payload and pad).
    pub fn acf_msg_length(&self) -> (r: u16)
        requires
            self.wf(),
        ensures
            r as nat == field_value(self@, 7, 9),
    {
        read_u16(&self.bytes, 0, 7, 9)
    }

    pub fn pad(&self) -> (r: u8)
        requires
            self.wf(),
        ensures
            r as nat == field_value(self@, 16, 2),
    {
        read_u8(&self.bytes, 0, 16, 2)
    }

    /// `mtv`: timestamp on the wrapping container is meaningful.
    pub fn is_message_timestamp_valid(&self) -> (r: bool)
        requires
            self.wf(),
        ensures
            r == (field_value(self@, 18, 1) == 1),
    {
        read_flag(&self.bytes, 0, 18)
    }

    /// `rtr`: this frame requests data from another node rather than
    /// carrying data itself.
    pub fn is_remote_frame(&self) -> (r: bool)
        requires
            self.wf(),
        ensures
            r == (field_value(self@, 19, 1) == 1),
    {
        read_flag(&self.bytes, 0, 19)
    }

    /// `eff`: the frame carries a 29-bit extended identifier rather than
    /// the 11-bit standard identifier.
    pub fn is_extended(&self) -> (r: bool)
        requires
            self.wf(),
        ensures
            r == (field_value(self@, 20, 1) == 1),
    {
        read_flag(&self.bytes, 0, 20)
    }

    /// `brs`: the CAN-FD data phase used a switched (higher) bit rate.
    pub fn is_bit_rate_switched(&self) -> (r: bool)
        requires
            self.wf(),
        ensures
            r == (field_value(self@, 21, 1) == 1),
    {
        read_flag(&self.bytes, 0, 21)
    }

    /// `fdf`: the frame uses CAN-FD framing.
    pub fn is_fd_format(&self) -> (r: bool)
        requires
            self.wf(),
        ensures
            r == (field_value(self@, 22, 1) == 1),
    {
        read_flag(&self.bytes, 0, 22)
    }

    /// `esi`: the transmitter is in the error-passive state.
    pub fn is_error_state_indicator(&self) -> (r: bool)
        requires
            self.wf(),
        ensures
            r == (field_value(self@, 23, 1) == 1),
    {
        read_flag(&self.bytes, 0, 23)
    }

    /// CAN frame payload, excluding header and trailing pad bytes.
    pub fn payload(&self) -> (p: &[u8])
        requires
            self.wf(),
            HEADER_LEN + payload_length_of(self@) <= self@.len(),
        ensures
            p@ == self@.subrange(HEADER_LEN as int, HEADER_LEN + payload_length_of(self@)),
    {
        let len = self.payload_length() as usize;
        payload_slice(&self.bytes, HEADER_LEN, len)
    }

    /// Payload length in bytes (excludes header and trailing pad).
    pub fn payload_length(&self) -> (r: u8)
        requires
            self.wf(),
        ensures
            r as nat == payload_length_of(self@),
    {
        (payload_len_declared(&self.bytes, HEADER_LEN, true) % 256) as u8
    }

    /// Structural validity: the message type matches, the declared length
    /// covers the header and fits the buffer, and the payload it leaves fits the CAN or CAN FD framing.
    pub fn is_valid(&self) -> (ok: bool)
        requires
            self.wf(),
        ensures
            ok == (frame_ok(self@, HEADER_LEN as int, AcfMsgType::CanBrief.code() as nat) && can_payload_fits(self@, HEADER_LEN as int, field_value(self@, 22, 1) == 1)),
    {
        message_frame_ok(&self.bytes, HEADER_LEN, AcfMsgType::CanBrief.as_u8()) && can_payload_fits_framing(&self.bytes, HEADER_LEN, read_flag(&self.bytes, 0, 22))
    }

    pub fn set_bus_id(&mut self, value: u8)
        requires
            old(self).wf(),
        ensures
            final(self)@ == with_field(old(self)@, 27, 5, value as nat),
    {
        write_bits(&mut self.bytes, 0, 27, 5, value as u64);
    }

    pub fn set_identifier(&mut self, value: u32)
        requires
            old(self).wf(),
        ensures
            final(self)@ == with_field(old(self)@, 35, 29, value as nat),
    {
        write_bits(&mut self.bytes, 1, 3, 29, value as u64);
    }

    pub fn set_message_timestamp_valid(&mut self, value: bool)
        requires
            old(self).wf(),
        ensures
            final(self)@ == with_field(old(self)@, 18, 1, flag_value(value)),
    {
        write_flag(&mut self.bytes, 0, 18, value);
    }

    pub fn set_remote_frame(&mut self, value: bool)
        requires
            old(self).wf(),
        ensures
            final(self)@ == with_field(old(self)@, 19, 1, flag_value(value)),
    {
        write_flag(&mut self.bytes, 0, 19, value);
    }

    pub fn set_extended(&mut self, value: bool)
        requires
            old(self).wf(),
        ensures
            final(self)@ == with_field(old(self)@, 20, 1, flag_value(value)),
    {
        write_flag(&mut self.bytes, 0, 20, value);
    }

    pub fn set_bit_rate_switched(&mut self, value: bool)
        requires
            old(self).wf(),
        ensures
            final(self)@ == with_field(old(self)@, 21, 1, flag_value(value)),
    {
        write_flag(&mut self.bytes, 0, 21, value);
    }

    pub fn set_fd_format(&mut self, value: bool)
        requires
            old(self).wf(),
        ensures
            final(self)@ == with_field(old(self)@, 22, 1, flag_value(value)),
    {
        write_flag(&mut self.bytes, 0, 22, value);
    }

    pub fn set_error_state_indicator(&mut self, value: bool)
        requires
            old(self).wf(),
        ensures
            final(self)@ == with_field(old(self)@, 23, 1, flag_value(value)),
    {
        write_flag(&mut self.bytes, 0, 23, value);
    }

    /// The bytes [`Self::create_acf_message`] leaves behind.
    pub open spec fn created(bytes: Seq<u8>, frame_id: u32, variant: Variant, payload: Seq<u8>) -> Seq<u8> {
        let n = wire_len(payload.len());
        let base = bytes;
        let s0 = with_field(base, 20, 1, flag_value(frame_id > 0x7FF));
        let s1 = with_field(s0, 35, 29, frame_id as nat);
        let s2 = with_field(s1, 22, 1, flag_value(variant == Variant::Fd));
        finalized(with_bytes(s2, HEADER_LEN as int, payload.take(n as int)), HEADER_LEN as int, n as int, true)
    }

    /// Building a message and reading it back gives what went in: every field
    /// [`Self::create_acf_message`] sets holds its value, the payload reads back
    /// unchanged, the declared length covers header, payload and pad, and the
    /// framing is one a receiver accepts.
    /// The payload fits the CAN framing exactly when its padded size is at most
    /// 8 bytes, or 64 for CAN FD.
    /// The message type is the one the buffer already carried.
    /// Holds for values that fit their fields and payloads whose
    /// message length fits its 9-bit field.
    pub proof fn lemma_create_round_trip(bytes: Seq<u8>, frame_id: u32, variant: Variant, payload: Seq<u8>)
        requires
            HEADER_LEN + payload.len() + pad_len(payload.len() as int) <= bytes.len(),
            HEADER_LEN + payload.len() + pad_len(payload.len() as int) < 2048,
            frame_id < 0x20000000,
        ensures
            ({
                let c = Self::created(bytes, frame_id, variant, payload);
                &&& field_value(c, 20, 1) == flag_value(frame_id > 0x7FF)
                &&& field_value(c, 35, 29) == frame_id as nat
                &&& field_value(c, 22, 1) == flag_value(variant == Variant::Fd)
                &&& c.subrange(HEADER_LEN as int, HEADER_LEN + payload.len()) == payload
                &&& declared_payload_len(c, HEADER_LEN as int, true) == payload.len()
                &&& pad_of(c) == pad_len(payload.len() as int)
                &&& 4 * msg_length_of(c) == HEADER_LEN + payload.len() + pad_len(payload.len() as int)
                &&& msg_type_of(c) == msg_type_of(bytes)
                &&& frame_ok(c, HEADER_LEN as int, msg_type_of(bytes))
                &&& can_payload_fits(c, HEADER_LEN as int, field_value(c, 22, 1) == 1) <==> payload.len() + pad_len(payload.len() as int) <= if variant == Variant::Fd { 64int } else { 8int }
            }),
    {
        let n = payload.len();
        let base = bytes;
        let s0 = with_field(base, 20, 1, flag_value(frame_id > 0x7FF));
        let s1 = with_field(s0, 35, 29, frame_id as nat);
        let s2 = with_field(s1, 22, 1, flag_value(variant == Variant::Fd));
        let wb = with_bytes(s2, HEADER_LEN as int, payload);
        lemma2_to64();
        lemma2_to64_rest();
        assert(wire_len(n) == n);
        assert(payload.take(n as int) =~= payload);
        lemma_finalized_frame(wb, HEADER_LEN as int, n as int, true);
        lemma_with_bytes_keeps_field(s2, HEADER_LEN as int, payload, 0, 7);
        lemma_set_keeps_other_fields(base, 20, 1, flag_value(frame_id > 0x7FF), 0, 7);
        lemma_set_keeps_other_fields(s0, 35, 29, frame_id as nat, 0, 7);
        lemma_set_keeps_other_fields(s1, 22, 1, flag_value(variant == Variant::Fd), 0, 7);
        lemma_finalized_keeps_field(wb, HEADER_LEN as int, n as int, true, 20, 1);
        lemma_with_bytes_keeps_field(s2, HEADER_LEN as int, payload, 20, 1);
        lemma_set_keeps_other_fields(s0, 35, 29, frame_id as nat, 20, 1);
        lemma_set_keeps_other_fields(s1, 22, 1, flag_value(variant == Variant::Fd), 20, 1);
        lemma_get_after_set(base, 20, 1, flag_value(frame_id > 0x7FF));
        vstd::arithmetic::div_mod::lemma_small_mod(flag_value(frame_id > 0x7FF), pow2(1));
        lemma_finalized_keeps_field(wb, HEADER_LEN as int, n as int, true, 35, 29);
        lemma_with_bytes_keeps_field(s2, HEADER_LEN as int, payload, 35, 29);
        lemma_set_keeps_other_fields(s1, 22, 1, flag_value(variant == Variant::Fd), 35, 29);
        lemma_get_after_set(s0, 35, 29, frame_id as nat);
        vstd::arithmetic::div_mod::lemma_small_mod(frame_id as nat, pow2(29));
        lemma_finalized_keeps_field(wb, HEADER_LEN as int, n as int, true, 22, 1);
        lemma_with_bytes_keeps_field(s2, HEADER_LEN as int, payload, 22, 1);
        lemma_get_after_set(s1, 22, 1, flag_value(variant == Variant::Fd));
        vstd::arithmetic::div_mod::lemma_small_mod(flag_value(variant == Variant::Fd), pow2(1));
        assert(wb.subrange(HEADER_LEN as int, HEADER_LEN + n) =~= payload);
    }


    /// Copies `payload` into the message, sets the identifier (marking it
    /// extended when it does not fit 11 bits), marks the FD bit for CAN FD,
    /// and finalizes the length and pad fields. Other header fields keep
    /// their values. Fails with [`Error::BufferTooSmall`], changing nothing,
    /// when the buffer cannot hold the header and the padded payload.
    pub fn create_acf_message(&mut self, frame_id: u32, payload: &[u8], variant: Variant) -> (r: Result<()>)
        requires
            old(self).wf(),
        ensures
            r == payload_room(old(self)@.len() as usize, payload.len(), HEADER_LEN),
            r is Ok ==> final(self)@ == Self::created(old(self)@, frame_id, variant, payload@),
            r is Err ==> final(self)@ == old(self)@,
    {
        match check_payload_room(self.bytes.len(), payload.len(), HEADER_LEN) {
            Ok(()) => {
                proof {
                    lemma_wire_len_room(HEADER_LEN as int, payload@.len(), self@.len() as int);
                }
                let n = payload.len() % 0x10000;
                write_flag(&mut self.bytes, 0, 20, frame_id > 0x7FF);
                write_bits(&mut self.bytes, 1, 3, 29, frame_id as u64);
                write_flag(&mut self.bytes, 0, 22, variant.is_fd());
                copy_bytes(&mut self.bytes, HEADER_LEN, payload, n);
                finalize_message(&mut self.bytes, HEADER_LEN, n, true);
                Ok(())
            },
            Err(e) => Err(e),
        }
    }

    /// Writes the payload bytes only, without touching other header fields
    /// or the length. Pair with [`Self::set_payload_length`]. Fails with
    /// [`Error::BufferTooSmall`], changing nothing, when the buffer cannot hold
    /// the header and the padded payload.
    pub fn set_payload(&mut self, payload: &[u8]) -> (r: Result<()>)
        requires
            old(self).wf(),
        ensures
            r == payload_room(old(self)@.len() as usize, payload.len(), HEADER_LEN),
            r is Ok ==> final(self)@ == with_bytes(
                old(self)@,
                HEADER_LEN as int,
                payload@.take(wire_len(payload@.len()) as int),
            ),
            r is Err ==> final(self)@ == old(self)@,
    {
        match check_payload_room(self.bytes.len(), payload.len(), HEADER_LEN) {
            Ok(()) => {
                proof {
                    lemma_wire_len_room(HEADER_LEN as int, payload@.len(), self@.len() as int);
                }
                let n = payload.len() % 0x10000;
                copy_bytes(&mut self.bytes, HEADER_LEN, payload, n);
                Ok(())
            },
            Err(e) => Err(e),
        }
    }

    /// Sets the ACF message length and pad fields for a payload of the
    /// given size, zeroing the pad bytes. The payload bytes themselves must
    /// already be in place. Fails with [`Error::BufferTooSmall`], changing
    /// nothing, when the buffer cannot hold the header and the padded payload.
    pub fn finalize(&mut self, payload_length: u16) -> (r: Result<()>)
        requires
            old(self).wf(),
        ensures
            r == payload_room(old(self)@.len() as usize, payload_length as usize, HEADER_LEN),
            r is Ok ==> final(self)@ == finalized(old(self)@, HEADER_LEN as int, payload_length as int, true),
            r is Err ==> final(self)@ == old(self)@,
    {
        match check_payload_room(self.bytes.len(), payload_length as usize, HEADER_LEN) {
            Ok(()) => {
                finalize_message(&mut self.bytes, HEADER_LEN, payload_length as usize, true);
                Ok(())
            },
            Err(e) => Err(e),
        }
    }
}

} // verus!
