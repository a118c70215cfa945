//! AVTP Clock Reference Format (CRF), per IEEE Std 1722-2016.
use vstd::prelude::*;
use crate::common::Subtype;
use crate::error::{Error, Result};
use crate::field::{field_value, with_field, flag_value, read_bits, read_u8, read_u16, read_u32, read_flag, write_bits, write_flag};
use crate::pdu::{check_header_room, fresh_stream_header, start_stream_header, lemma_fresh_stream_header};

verus! {

broadcast use crate::field::lemma_with_field_len;

/// Size of the CRF header in bytes.
pub const HEADER_LEN: usize = 20;

/// A Clock Reference Format PDU.
pub struct Crf {
    bytes: Vec<u8>,
}

impl View for Crf {
    type V = Seq<u8>;

    closed spec fn view(&self) -> Seq<u8> {
        self.bytes@
    }
}

impl Crf {
    /// The buffer holds at least a whole header.
    pub open spec fn wf(&self) -> bool {
        self@.len() >= HEADER_LEN
    }

    /// The header a talker starts from: every header byte cleared, the
    /// subtype set to Crf and the `sv` (stream id valid) bit set.
    pub open spec fn initial(buf: Seq<u8>) -> Seq<u8> {
        fresh_stream_header(buf, HEADER_LEN as int, Subtype::Crf.code() as nat)
    }

    /// An initialized CRF header carries the CRF subtype code 0x04.
    pub proof fn lemma_initial_subtype(buf: Seq<u8>)
        requires
            buf.len() >= HEADER_LEN,
        ensures
            field_value(Self::initial(buf), 0, 8) == 0x04,
            Subtype::decode(field_value(Self::initial(buf), 0, 8) as u8) == Ok::<Subtype, Error>(Subtype::Crf),
    {
        Subtype::lemma_wire_codes();
        lemma_fresh_stream_header(buf, HEADER_LEN as int, Subtype::Crf.code() as nat);
    }

    /// Wraps `buf`; fails with [`Error::BufferTooSmall`] when it cannot hold
    /// a whole header.
    pub fn new(buf: Vec<u8>) -> (r: Result<Self>)
        ensures
            r is Ok <==> buf.len() >= HEADER_LEN,
            r matches Ok(p) ==> p@ == buf@,
            r matches Err(e) ==> e == (Error::BufferTooSmall { required: HEADER_LEN, actual: buf.len() }),
    {
        match check_header_room(buf.len(), HEADER_LEN) {
            Ok(()) => Ok(Crf { bytes: buf }),
            Err(e) => Err(e),
        }
    }

    /// Wraps `buf` and writes a fresh header into it, as [`Self::initial`]
    /// describes. Use on the talker side.
    pub fn initialized(buf: Vec<u8>) -> (r: Result<Self>)
        ensures
            r is Ok <==> buf.len() >= HEADER_LEN,
            r matches Ok(p) ==> p@ == Self::initial(buf@),
            r matches Err(e) ==> e == (Error::BufferTooSmall { required: HEADER_LEN, actual: buf.len() }),
    {
        match Self::new(buf) {
            Ok(mut pdu) => {
                start_stream_header(&mut pdu.bytes, HEADER_LEN, Subtype::Crf.as_u8());
                Ok(pdu)
            },
            Err(e) => Err(e),
        }
    }

    /// The whole buffer.
    pub fn as_bytes(&self) -> (bytes: &[u8])
        ensures
            bytes@ == self@,
    {
        self.bytes.as_slice()
    }

    /// Gives the buffer back.
    pub fn into_inner(self) -> (bytes: Vec<u8>)
        ensures
            bytes@ == self@,
    {
        self.bytes
    }

    /// The whole buffer, for writing.
    pub fn as_bytes_mut(&mut self) -> (bytes: &mut [u8])
        ensures
            bytes@ == old(self)@,
            final(self)@ == final(bytes)@,
    {
        self.bytes.as_mut_slice()
    }

    pub fn subtype(&self) -> (r: u8)
        requires
            self.wf(),
        ensures
            r as nat == field_value(self@, 0, 8),
    {
        read_u8(&self.bytes, 0, 0, 8)
    }

    pub fn version(&self) -> (r: u8)
        requires
            self.wf(),
        ensures
            r as nat == field_value(self@, 9, 3),
    {
        read_u8(&self.bytes, 0, 9, 3)
    }

    pub fn sequence_num(&self) -> (r: u8)
        requires
            self.wf(),
        ensures
            r as nat == field_value(self@, 16, 8),
    {
        read_u8(&self.bytes, 0, 16, 8)
    }

    /// CRF type byte (identifies what kind of clock reference this stream
    /// carries).
    pub fn crf_type(&self) -> (r: u8)
        requires
            self.wf(),
        ensures
            r as nat == field_value(self@, 24, 8),
    {
        read_u8(&self.bytes, 0, 24, 8)
    }

    pub fn stream_id(&self) -> (r: u64)
        requires
            self.wf(),
        ensures
            r as nat == field_value(self@, 32, 64),
    {
        read_bits(&self.bytes, 1, 0, 64)
    }

    pub fn pull(&self) -> (r: u8)
        requires
            self.wf(),
        ensures
            r as nat == field_value(self@, 96, 3),
    {
        read_u8(&self.bytes, 3, 0, 3)
    }

    /// Base frequency in Hz.
    pub fn base_frequency(&self) -> (r: u32)
        requires
            self.wf(),
        ensures
            r as nat == field_value(self@, 99, 29),
    {
        read_u32(&self.bytes, 3, 3, 29)
    }

    pub fn crf_data_length(&self) -> (r: u16)
        requires
            self.wf(),
        ensures
            r as nat == field_value(self@, 128, 16),
    {
        read_u16(&self.bytes, 4, 0, 16)
    }

    pub fn timestamp_interval(&self) -> (r: u16)
        requires
            self.wf(),
        ensures
            r as nat == field_value(self@, 144, 16),
    {
        read_u16(&self.bytes, 4, 16, 16)
    }

    /// `sv`: `stream_id` carries a meaningful value.
    pub fn is_stream_id_valid(&self) -> (r: bool)
        requires
            self.wf(),
        ensures
            r == (field_value(self@, 8, 1) == 1),
    {
        read_flag(&self.bytes, 0, 8)
    }

    /// `mr`: the media clock has been reset since the last PDU.
    pub fn is_media_reset(&self) -> (r: bool)
        requires
            self.wf(),
        ensures
            r == (field_value(self@, 12, 1) == 1),
    {
        read_flag(&self.bytes, 0, 12)
    }

    /// `tu`: the talker is uncertain about the timestamp.
    pub fn is_timestamp_uncertain(&self) -> (r: bool)
        requires
            self.wf(),
        ensures
            r == (field_value(self@, 15, 1) == 1),
    {
        read_flag(&self.bytes, 0, 15)
    }

    /// `fs`: the CRF "FS" bit. Semantics are spec-defined and depend on
    /// `crf_type`; see IEEE Std 1722-2016.
    pub fn is_fs(&self) -> (r: bool)
        requires
            self.wf(),
        ensures
            r == (field_value(self@, 14, 1) == 1),
    {
        read_flag(&self.bytes, 0, 14)
    }

    pub fn set_version(&mut self, value: u8)
        requires
            old(self).wf(),
        ensures
            final(self)@ == with_field(old(self)@, 9, 3, value as nat),
    {
        write_bits(&mut self.bytes, 0, 9, 3, value as u64);
    }

    pub fn set_sequence_num(&mut self, value: u8)
        requires
            old(self).wf(),
        ensures
            final(self)@ == with_field(old(self)@, 16, 8, value as nat),
    {
        write_bits(&mut self.bytes, 0, 16, 8, value as u64);
    }

    pub fn set_crf_type(&mut self, value: u8)
        requires
            old(self).wf(),
        ensures
            final(self)@ == with_field(old(self)@, 24, 8, value as nat),
    {
        write_bits(&mut self.bytes, 0, 24, 8, value as u64);
    }

    pub fn set_stream_id(&mut self, value: u64)
        requires
            old(self).wf(),
        ensures
            final(self)@ == with_field(old(self)@, 32, 64, value as nat),
    {
        write_bits(&mut self.bytes, 1, 0, 64, value as u64);
    }

    pub fn set_pull(&mut self, value: u8)
        requires
            old(self).wf(),
        ensures
            final(self)@ == with_field(old(self)@, 96, 3, value as nat),
    {
        write_bits(&mut self.bytes, 3, 0, 3, value as u64);
    }

    pub fn set_base_frequency(&mut self, value: u32)
        requires
            old(self).wf(),
        ensures
            final(self)@ == with_field(old(self)@, 99, 29, value as nat),
    {
        write_bits(&mut self.bytes, 3, 3, 29, value as u64);
    }

    pub fn set_crf_data_length(&mut self, value: u16)
        requires
            old(self).wf(),
        ensures
            final(self)@ == with_field(old(self)@, 128, 16, value as nat),
    {
        write_bits(&mut self.bytes, 4, 0, 16, value as u64);
    }

    pub fn set_timestamp_interval(&mut self, value: u16)
        requires
            old(self).wf(),
        ensures
            final(self)@ == with_field(old(self)@, 144, 16, value as nat),
    {
        write_bits(&mut self.bytes, 4, 16, 16, value as u64);
    }

    pub fn set_stream_id_valid(&mut self, value: bool)
        requires
            old(self).wf(),
        ensures
            final(self)@ == with_field(old(self)@, 8, 1, flag_value(value)),
    {
        write_flag(&mut self.bytes, 0, 8, value);
    }

    pub fn set_media_reset(&mut self, value: bool)
        requires
            old(self).wf(),
        ensures
            final(self)@ == with_field(old(self)@, 12, 1, flag_value(value)),
    {
        write_flag(&mut self.bytes, 0, 12, value);
    }

    pub fn set_timestamp_uncertain(&mut self, value: bool)
        requires
            old(self).wf(),
        ensures
            final(self)@ == with_field(old(self)@, 15, 1, flag_value(value)),
    {
        write_flag(&mut self.bytes, 0, 15, value);
    }

    pub fn set_fs(&mut self, value: bool)
        requires
            old(self).wf(),
        ensures
            final(self)@ == with_field(old(self)@, 14, 1, flag_value(value)),
    {
        write_flag(&mut self.bytes, 0, 14, value);
    }
}

} // verus!
