//! COVESA VSS Brief: the short-form VSS variant that omits the per-message
//! timestamp. Custom format, not part of IEEE Std 1722-2016.
use vstd::prelude::*;
use super::{AddrMode, Datatype, OpCode, VSS_MSG_TYPE};
use crate::error::{Error, Result};
use crate::field::{field_value, with_field, flag_value, read_u8, read_u16, read_flag, write_bits, write_flag};
use crate::pdu::check_header_room;
use crate::acf_common::{fresh_message, start_message};

verus! {

broadcast use crate::field::lemma_with_field_len;

/// Size of the VSS Brief header in bytes.
pub const HEADER_LEN: usize = 4;

/// A COVESA VSS Brief message header.
pub struct VssBrief {
    bytes: Vec<u8>,
}

impl View for VssBrief {
    type V = Seq<u8>;

    closed spec fn view(&self) -> Seq<u8> {
        self.bytes@
    }
}

impl VssBrief {
    /// The buffer holds at least a whole header.
    pub open spec fn wf(&self) -> bool {
        self@.len() >= HEADER_LEN
    }

    /// The header a talker starts from: every header byte cleared and the
    /// message type set to [`VSS_MSG_TYPE`].
    pub open spec fn initial(buf: Seq<u8>) -> Seq<u8> {
        fresh_message(buf, HEADER_LEN as int, VSS_MSG_TYPE as nat)
    }

    /// Wraps `buf`; fails with [`Error::BufferTooSmall`] when it cannot hold
    /// a whole header.
    pub fn new(buf: Vec<u8>) -> (r: Result<Self>)
        ensures
            r is Ok <==> buf.len() >= HEADER_LEN,
            r matches Ok(p) ==> p@ == buf@,
            r matches Err(e) ==> e == (Error::BufferTooSmall { required: HEADER_LEN, actual: buf.len() }),
    {
        match check_header_room(buf.len(), HEADER_LEN) {
            Ok(()) => Ok(VssBrief { bytes: buf }),
            Err(e) => Err(e),
        }
    }

    /// Wraps `buf` and writes a fresh header into it, as [`Self::initial`]
    /// describes. Use on the talker side.
    pub fn initialized(buf: Vec<u8>) -> (r: Result<Self>)
        ensures
            r is Ok <==> buf.len() >= HEADER_LEN,
            r matches Ok(p) ==> p@ == Self::initial(buf@),
            r matches Err(e) ==> e == (Error::BufferTooSmall { required: HEADER_LEN, actual: buf.len() }),
    {
        match Self::new(buf) {
            Ok(mut pdu) => {
                start_message(&mut pdu.bytes, HEADER_LEN, VSS_MSG_TYPE);
                Ok(pdu)
            },
            Err(e) => Err(e),
        }
    }

    /// The whole buffer.
    pub fn as_bytes(&self) -> (bytes: &[u8])
        ensures
            bytes@ == self@,
    {
        self.bytes.as_slice()
    }

    /// Gives the buffer back.
    pub fn into_inner(self) -> (bytes: Vec<u8>)
        ensures
            bytes@ == self@,
    {
        self.bytes
    }

    /// The whole buffer, for writing.
    pub fn as_bytes_mut(&mut self) -> (bytes: &mut [u8])
        ensures
            bytes@ == old(self)@,
            final(self)@ == final(bytes)@,
    {
        self.bytes.as_mut_slice()
    }

    /// Length of the ACF message in quadlets (header, payload and pad).
    pub fn acf_msg_length(&self) -> (r: u16)
        requires
            self.wf(),
        ensures
            r as nat == field_value(self@, 7, 9),
    {
        read_u16(&self.bytes, 0, 7, 9)
    }

    pub fn pad(&self) -> (r: u8)
        requires
            self.wf(),
        ensures
            r as nat == field_value(self@, 16, 2),
    {
        read_u8(&self.bytes, 0, 16, 2)
    }

    pub fn addr_mode(&self) -> (r: Result<AddrMode>)
        requires
            self.wf(),
        ensures
            r == AddrMode::decode(field_value(self@, 19, 2) as u8),
    {
        AddrMode::from_raw(read_u8(&self.bytes, 0, 19, 2))
    }

    pub fn op_code(&self) -> (r: Result<OpCode>)
        requires
            self.wf(),
        ensures
            r == OpCode::decode(field_value(self@, 21, 3) as u8),
    {
        OpCode::from_raw(read_u8(&self.bytes, 0, 21, 3))
    }

    pub fn datatype(&self) -> (r: Result<Datatype>)
        requires
            self.wf(),
        ensures
            r == Datatype::decode(field_value(self@, 24, 8) as u8),
    {
        Datatype::from_raw(read_u8(&self.bytes, 0, 24, 8))
    }

    /// `mtv`: the wrapping container's timestamp is meaningful.
    pub fn is_message_timestamp_valid(&self) -> (r: bool)
        requires
            self.wf(),
        ensures
            r == (field_value(self@, 18, 1) == 1),
    {
        read_flag(&self.bytes, 0, 18)
    }

    pub fn set_addr_mode(&mut self, value: AddrMode)
        requires
            old(self).wf(),
        ensures
            final(self)@ == with_field(old(self)@, 19, 2, value.code() as nat),
    {
        write_bits(&mut self.bytes, 0, 19, 2, value.as_u8() as u64);
    }

    pub fn set_op_code(&mut self, value: OpCode)
        requires
            old(self).wf(),
        ensures
            final(self)@ == with_field(old(self)@, 21, 3, value.code() as nat),
    {
        write_bits(&mut self.bytes, 0, 21, 3, value.as_u8() as u64);
    }

    pub fn set_datatype(&mut self, value: Datatype)
        requires
            old(self).wf(),
        ensures
            final(self)@ == with_field(old(self)@, 24, 8, value.code() as nat),
    {
        write_bits(&mut self.bytes, 0, 24, 8, value.as_u8() as u64);
    }

    pub fn set_message_timestamp_valid(&mut self, value: bool)
        requires
            old(self).wf(),
        ensures
            final(self)@ == with_field(old(self)@, 18, 1, flag_value(value)),
    {
        write_flag(&mut self.bytes, 0, 18, value);
    }
}

} // verus!
