//! COVESA VSS over IEEE 1722 (per the COVESA VSS - IEEE 1722 Mapping
//! Specification, not part of IEEE Std 1722-2016 itself).
//!
//! Only the fixed header is covered; the variable-length path and data that
//! follow it are left to the caller.
use vstd::prelude::*;
use super::{AddrMode, Datatype, OpCode, VSS_MSG_TYPE};
use crate::pdu::{pad_for, check_header_room, pad_len};
use crate::error::{Error, Result};
use crate::field::{field_value, with_field, flag_value, read_bits, read_u8, read_u16, read_flag, write_bits, write_flag};
use crate::acf_common::{msg_length_of, fresh_message, start_message};

verus! {

broadcast use crate::field::lemma_with_field_len;

/// Size of the fixed VSS header in bytes.
pub const HEADER_LEN: usize = 12;

/// A COVESA VSS message: the fixed header, with addressing mode, operation,
/// datatype and message timestamp.
pub struct Vss {
    bytes: Vec<u8>,
}

impl View for Vss {
    type V = Seq<u8>;

    closed spec fn view(&self) -> Seq<u8> {
        self.bytes@
    }
}

impl Vss {
    /// The buffer holds at least a whole header.
    pub open spec fn wf(&self) -> bool {
        self@.len() >= HEADER_LEN
    }

    /// The header a talker starts from: every header byte cleared and the
    /// message type set to [`VSS_MSG_TYPE`].
    pub open spec fn initial(buf: Seq<u8>) -> Seq<u8> {
        fresh_message(buf, HEADER_LEN as int, VSS_MSG_TYPE as nat)
    }

    /// Setting a datatype and reading it back gives it back, in any buffer;
    /// on the wire a 32-bit float is 0x09 and a 64-bit float 0x0A, and a
    /// header carrying 0x09 or 0x0A reads as that float type.
    pub proof fn lemma_datatype_on_wire(bytes: Seq<u8>, datatype: Datatype)
        requires
            bytes.len() >= HEADER_LEN,
        ensures
            Datatype::decode(field_value(with_field(bytes, 24, 8, datatype.code() as nat), 24, 8) as u8)
                == Ok::<Datatype, Error>(datatype),
            datatype == Datatype::F32 ==> field_value(with_field(bytes, 24, 8, datatype.code() as nat), 24, 8) == 0x09,
            datatype == Datatype::F64 ==> field_value(with_field(bytes, 24, 8, datatype.code() as nat), 24, 8) == 0x0A,
            field_value(bytes, 24, 8) == 0x09 ==> Datatype::decode(field_value(bytes, 24, 8) as u8)
                == Ok::<Datatype, Error>(Datatype::F32),
            field_value(bytes, 24, 8) == 0x0A ==> Datatype::decode(field_value(bytes, 24, 8) as u8)
                == Ok::<Datatype, Error>(Datatype::F64),
    {
        Datatype::lemma_wire_codes();
        vstd::arithmetic::power2::lemma2_to64();
        crate::field::lemma_get_after_set(bytes, 24, 8, datatype.code() as nat);
        datatype.lemma_decode_code();
    }

    /// Wraps `buf`; fails with [`Error::BufferTooSmall`] when it cannot hold
    /// a whole header.
    pub fn new(buf: Vec<u8>) -> (r: Result<Self>)
        ensures
            r is Ok <==> buf.len() >= HEADER_LEN,
            r matches Ok(p) ==> p@ == buf@,
            r matches Err(e) ==> e == (Error::BufferTooSmall { required: HEADER_LEN, actual: buf.len() }),
    {
        match check_header_room(buf.len(), HEADER_LEN) {
            Ok(()) => Ok(Vss { bytes: buf }),
            Err(e) => Err(e),
        }
    }

    /// Wraps `buf` and writes a fresh header into it, as [`Self::initial`]
    /// describes. Use on the talker side.
    pub fn initialized(buf: Vec<u8>) -> (r: Result<Self>)
        ensures
            r is Ok <==> buf.len() >= HEADER_LEN,
            r matches Ok(p) ==> p@ == Self::initial(buf@),
            r matches Err(e) ==> e == (Error::BufferTooSmall { required: HEADER_LEN, actual: buf.len() }),
    {
        match Self::new(buf) {
            Ok(mut pdu) => {
                start_message(&mut pdu.bytes, HEADER_LEN, VSS_MSG_TYPE);
                Ok(pdu)
            },
            Err(e) => Err(e),
        }
    }

    /// The whole buffer.
    pub fn as_bytes(&self) -> (bytes: &[u8])
        ensures
            bytes@ == self@,
    {
        self.bytes.as_slice()
    }

    /// Gives the buffer back.
    pub fn into_inner(self) -> (bytes: Vec<u8>)
        ensures
            bytes@ == self@,
    {
        self.bytes
    }

    /// The whole buffer, for writing.
    pub fn as_bytes_mut(&mut self) -> (bytes: &mut [u8])
        ensures
            bytes@ == old(self)@,
            final(self)@ == final(bytes)@,
    {
        self.bytes.as_mut_slice()
    }

    /// Length of the ACF message in quadlets (header, payload and pad), as
    /// the 8 low bits of the 9-bit field.
    pub fn acf_msg_length(&self) -> (r: u8)
        requires
            self.wf(),
        ensures
            r as nat == msg_length_of(self@) % 256,
    {
        let len = read_u16(&self.bytes, 0, 7, 9);
        assert((len as u8) as nat == len as nat % 256) by (bit_vector);
        len as u8
    }

    pub fn pad(&self) -> (r: u8)
        requires
            self.wf(),
        ensures
            r as nat == field_value(self@, 16, 2),
    {
        read_u8(&self.bytes, 0, 16, 2)
    }

    pub fn message_timestamp(&self) -> (r: u64)
        requires
            self.wf(),
        ensures
            r as nat == field_value(self@, 32, 64),
    {
        read_bits(&self.bytes, 1, 0, 64)
    }

    pub fn addr_mode(&self) -> (r: Result<AddrMode>)
        requires
            self.wf(),
        ensures
            r == AddrMode::decode(field_value(self@, 19, 2) as u8),
    {
        AddrMode::from_raw(read_u8(&self.bytes, 0, 19, 2))
    }

    pub fn op_code(&self) -> (r: Result<OpCode>)
        requires
            self.wf(),
        ensures
            r == OpCode::decode(field_value(self@, 21, 3) as u8),
    {
        OpCode::from_raw(read_u8(&self.bytes, 0, 21, 3))
    }

    pub fn datatype(&self) -> (r: Result<Datatype>)
        requires
            self.wf(),
        ensures
            r == Datatype::decode(field_value(self@, 24, 8) as u8),
    {
        Datatype::from_raw(read_u8(&self.bytes, 0, 24, 8))
    }

    /// `mtv`: `message_timestamp` carries a meaningful value.
    pub fn is_message_timestamp_valid(&self) -> (r: bool)
        requires
            self.wf(),
        ensures
            r == (field_value(self@, 18, 1) == 1),
    {
        read_flag(&self.bytes, 0, 18)
    }

    pub fn set_message_timestamp(&mut self, value: u64)
        requires
            old(self).wf(),
        ensures
            final(self)@ == with_field(old(self)@, 32, 64, value as nat),
    {
        write_bits(&mut self.bytes, 1, 0, 64, value as u64);
    }

    pub fn set_addr_mode(&mut self, value: AddrMode)
        requires
            old(self).wf(),
        ensures
            final(self)@ == with_field(old(self)@, 19, 2, value.code() as nat),
    {
        write_bits(&mut self.bytes, 0, 19, 2, value.as_u8() as u64);
    }

    pub fn set_op_code(&mut self, value: OpCode)
        requires
            old(self).wf(),
        ensures
            final(self)@ == with_field(old(self)@, 21, 3, value.code() as nat),
    {
        write_bits(&mut self.bytes, 0, 21, 3, value.as_u8() as u64);
    }

    pub fn set_datatype(&mut self, value: Datatype)
        requires
            old(self).wf(),
        ensures
            final(self)@ == with_field(old(self)@, 24, 8, value.code() as nat),
    {
        write_bits(&mut self.bytes, 0, 24, 8, value.as_u8() as u64);
    }

    pub fn set_message_timestamp_valid(&mut self, value: bool)
        requires
            old(self).wf(),
        ensures
            final(self)@ == with_field(old(self)@, 18, 1, flag_value(value)),
    {
        write_flag(&mut self.bytes, 0, 18, value);
    }

    /// Sets the ACF length and pad fields for a VSS frame of `vss_length`
    /// bytes (header and payload): the pad field gets the bytes that align it
    /// to a quadlet, the length field the padded size in quadlets. The
    /// payload bytes must already be in place; no byte outside the two fields
    /// changes.
    pub fn pad_to(&mut self, vss_length: u16)
        requires
            old(self).wf(),
        ensures
            final(self)@ == with_field(
                with_field(old(self)@, 16, 2, pad_len(vss_length as int) as nat),
                7,
                9,
                ((vss_length + pad_len(vss_length as int)) / 4) as nat,
            ),
    {
        let pad = pad_for(vss_length as usize);
        write_bits(&mut self.bytes, 0, 16, 2, pad as u64);
        write_bits(&mut self.bytes, 0, 7, 9, ((vss_length as usize + pad) / 4) as u64);
    }
}

} // verus!
