//! Non-Time-Synchronous Control Format: an AVTP PDU that carries one or
//! more ACF messages without presentation timing.
use vstd::prelude::*;
use crate::common::Subtype;
use crate::error::{Error, Result};
use crate::field::{field_value, with_field, flag_value, read_bits, read_u8, read_u16, read_flag, write_bits, write_flag};
use crate::pdu::{check_header_room, fresh_stream_header, start_stream_header, lemma_fresh_stream_header};
use crate::acf_common::{clamped_len, payload_slice};

verus! {

broadcast use crate::field::lemma_with_field_len;

/// Size of the NTSCF header in bytes.
pub const HEADER_LEN: usize = 12;

/// A Non-Time-Synchronous Control Format PDU.
pub struct Ntscf {
    bytes: Vec<u8>,
}

impl View for Ntscf {
    type V = Seq<u8>;

    closed spec fn view(&self) -> Seq<u8> {
        self.bytes@
    }
}

impl Ntscf {
    /// The buffer holds at least a whole header.
    pub open spec fn wf(&self) -> bool {
        self@.len() >= HEADER_LEN
    }

    /// The header a talker starts from: every header byte cleared, the
    /// subtype set to Ntscf and the `sv` (stream id valid) bit set.
    pub open spec fn initial(buf: Seq<u8>) -> Seq<u8> {
        fresh_stream_header(buf, HEADER_LEN as int, Subtype::Ntscf.code() as nat)
    }

    /// A freshly initialized header carries the NTSCF subtype and the `sv`
    /// bit and declares no stream data, so it passes [`Self::is_valid`] in any
    /// buffer that holds it.
    pub proof fn lemma_initial_is_valid(buf: Seq<u8>)
        requires
            buf.len() >= HEADER_LEN,
        ensures
            field_value(Self::initial(buf), 0, 8) == Subtype::Ntscf.code(),
            field_value(Self::initial(buf), 8, 1) == 1,
            field_value(Self::initial(buf), 13, 11) == 0,
            HEADER_LEN + field_value(Self::initial(buf), 13, 11) <= Self::initial(buf).len(),
    {
        lemma_fresh_stream_header(buf, HEADER_LEN as int, Subtype::Ntscf.code() as nat);
        assert(field_value(Self::initial(buf), 13, 11) == 0);
    }

    /// Wraps `buf`; fails with [`Error::BufferTooSmall`] when it cannot hold
    /// a whole header.
    pub fn new(buf: Vec<u8>) -> (r: Result<Self>)
        ensures
            r is Ok <==> buf.len() >= HEADER_LEN,
            r matches Ok(p) ==> p@ == buf@,
            r matches Err(e) ==> e == (Error::BufferTooSmall { required: HEADER_LEN, actual: buf.len() }),
    {
        match check_header_room(buf.len(), HEADER_LEN) {
            Ok(()) => Ok(Ntscf { bytes: buf }),
            Err(e) => Err(e),
        }
    }

    /// Wraps `buf` and writes a fresh header into it, as [`Self::initial`]
    /// describes. Use on the talker side.
    pub fn initialized(buf: Vec<u8>) -> (r: Result<Self>)
        ensures
            r is Ok <==> buf.len() >= HEADER_LEN,
            r matches Ok(p) ==> p@ == Self::initial(buf@),
            r matches Err(e) ==> e == (Error::BufferTooSmall { required: HEADER_LEN, actual: buf.len() }),
    {
        match Self::new(buf) {
            Ok(mut pdu) => {
                start_stream_header(&mut pdu.bytes, HEADER_LEN, Subtype::Ntscf.as_u8());
                Ok(pdu)
            },
            Err(e) => Err(e),
        }
    }

    /// The whole buffer.
    pub fn as_bytes(&self) -> (bytes: &[u8])
        ensures
            bytes@ == self@,
    {
        self.bytes.as_slice()
    }

    /// Gives the buffer back.
    pub fn into_inner(self) -> (bytes: Vec<u8>)
        ensures
            bytes@ == self@,
    {
        self.bytes
    }

    /// The whole buffer, for writing.
    pub fn as_bytes_mut(&mut self) -> (bytes: &mut [u8])
        ensures
            bytes@ == old(self)@,
            final(self)@ == final(bytes)@,
    {
        self.bytes.as_mut_slice()
    }

    pub fn subtype(&self) -> (r: u8)
        requires
            self.wf(),
        ensures
            r as nat == field_value(self@, 0, 8),
    {
        read_u8(&self.bytes, 0, 0, 8)
    }

    pub fn version(&self) -> (r: u8)
        requires
            self.wf(),
        ensures
            r as nat == field_value(self@, 9, 3),
    {
        read_u8(&self.bytes, 0, 9, 3)
    }

    pub fn sequence_num(&self) -> (r: u8)
        requires
            self.wf(),
        ensures
            r as nat == field_value(self@, 24, 8),
    {
        read_u8(&self.bytes, 0, 24, 8)
    }

    pub fn stream_id(&self) -> (r: u64)
        requires
            self.wf(),
        ensures
            r as nat == field_value(self@, 32, 64),
    {
        read_bits(&self.bytes, 1, 0, 64)
    }

    pub fn ntscf_data_length(&self) -> (r: u16)
        requires
            self.wf(),
        ensures
            r as nat == field_value(self@, 13, 11),
    {
        read_u16(&self.bytes, 0, 13, 11)
    }

    /// `sv`: `stream_id` carries a meaningful value.
    pub fn is_stream_id_valid(&self) -> (r: bool)
        requires
            self.wf(),
        ensures
            r == (field_value(self@, 8, 1) == 1),
    {
        read_flag(&self.bytes, 0, 8)
    }

    /// NTSCF data slice, cut at the end of the buffer in case the declared
    /// length exceeds what it holds.
    pub fn data(&self) -> (d: &[u8])
        requires
            self.wf(),
        ensures
            d@ == self@.subrange(
                HEADER_LEN as int,
                HEADER_LEN + clamped_len(field_value(self@, 13, 11) as int, HEADER_LEN as int, self@.len() as int),
            ),
    {
        let declared = self.ntscf_data_length() as usize;
        payload_slice(&self.bytes, HEADER_LEN, declared)
    }

    /// Structural validity: the subtype is NTSCF and the declared data fits
    /// the buffer after the header.
    pub fn is_valid(&self) -> (ok: bool)
        requires
            self.wf(),
        ensures
            ok == (field_value(self@, 0, 8) == Subtype::Ntscf.code() && HEADER_LEN + field_value(self@, 13, 11) <= self@.len()),
    {
        self.subtype() == Subtype::Ntscf.as_u8() && (self.ntscf_data_length() as usize) <= self.bytes.len() - HEADER_LEN
    }

    pub fn set_version(&mut self, value: u8)
        requires
            old(self).wf(),
        ensures
            final(self)@ == with_field(old(self)@, 9, 3, value as nat),
    {
        write_bits(&mut self.bytes, 0, 9, 3, value as u64);
    }

    pub fn set_sequence_num(&mut self, value: u8)
        requires
            old(self).wf(),
        ensures
            final(self)@ == with_field(old(self)@, 24, 8, value as nat),
    {
        write_bits(&mut self.bytes, 0, 24, 8, value as u64);
    }

    pub fn set_stream_id(&mut self, value: u64)
        requires
            old(self).wf(),
        ensures
            final(self)@ == with_field(old(self)@, 32, 64, value as nat),
    {
        write_bits(&mut self.bytes, 1, 0, 64, value as u64);
    }

    pub fn set_ntscf_data_length(&mut self, value: u16)
        requires
            old(self).wf(),
        ensures
            final(self)@ == with_field(old(self)@, 13, 11, value as nat),
    {
        write_bits(&mut self.bytes, 0, 13, 11, value as u64);
    }

    pub fn set_stream_id_valid(&mut self, value: bool)
        requires
            old(self).wf(),
        ensures
            final(self)@ == with_field(old(self)@, 8, 1, flag_value(value)),
    {
        write_flag(&mut self.bytes, 0, 8, value);
    }
}

} // verus!
