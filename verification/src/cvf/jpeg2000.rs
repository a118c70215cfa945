//! JPEG 2000 codec extension header that follows a CVF stream header.
use vstd::prelude::*;
use crate::error::{Error, Result};
use crate::field::{field_value, with_field, flag_value, read_u8, read_u16, read_u32, read_flag, write_bits, write_flag};
use crate::pdu::{check_header_room, cleared, clear_bytes};

verus! {

broadcast use crate::field::lemma_with_field_len;

/// Size of the JPEG 2000 extension header in bytes.
pub const HEADER_LEN: usize = 8;

/// The JPEG 2000 codec extension header that follows a CVF stream header.
pub struct Jpeg2000 {
    bytes: Vec<u8>,
}

impl View for Jpeg2000 {
    type V = Seq<u8>;

    closed spec fn view(&self) -> Seq<u8> {
        self.bytes@
    }
}

impl Jpeg2000 {
    /// The buffer holds at least a whole header.
    pub open spec fn wf(&self) -> bool {
        self@.len() >= HEADER_LEN
    }

    /// The header a talker starts from: every JPEG 2000 header byte cleared.
    pub open spec fn initial(buf: Seq<u8>) -> Seq<u8> {
        cleared(buf, 0, HEADER_LEN as int)
    }

    /// Wraps `buf`; fails with [`Error::BufferTooSmall`] when it cannot hold
    /// a whole header.
    pub fn new(buf: Vec<u8>) -> (r: Result<Self>)
        ensures
            r is Ok <==> buf.len() >= HEADER_LEN,
            r matches Ok(p) ==> p@ == buf@,
            r matches Err(e) ==> e == (Error::BufferTooSmall { required: HEADER_LEN, actual: buf.len() }),
    {
        match check_header_room(buf.len(), HEADER_LEN) {
            Ok(()) => Ok(Jpeg2000 { bytes: buf }),
            Err(e) => Err(e),
        }
    }

    /// Wraps `buf` and writes a fresh header into it, as [`Self::initial`]
    /// describes. Use on the talker side.
    pub fn initialized(buf: Vec<u8>) -> (r: Result<Self>)
        ensures
            r is Ok <==> buf.len() >= HEADER_LEN,
            r matches Ok(p) ==> p@ == Self::initial(buf@),
            r matches Err(e) ==> e == (Error::BufferTooSmall { required: HEADER_LEN, actual: buf.len() }),
    {
        match Self::new(buf) {
            Ok(mut pdu) => {
                clear_bytes(&mut pdu.bytes, 0, HEADER_LEN);
                Ok(pdu)
            },
            Err(e) => Err(e),
        }
    }

    /// The whole buffer.
    pub fn as_bytes(&self) -> (bytes: &[u8])
        ensures
            bytes@ == self@,
    {
        self.bytes.as_slice()
    }

    /// Gives the buffer back.
    pub fn into_inner(self) -> (bytes: Vec<u8>)
        ensures
            bytes@ == self@,
    {
        self.bytes
    }

    /// The whole buffer, for writing.
    pub fn as_bytes_mut(&mut self) -> (bytes: &mut [u8])
        ensures
            bytes@ == old(self)@,
            final(self)@ == final(bytes)@,
    {
        self.bytes.as_mut_slice()
    }

    pub fn tp(&self) -> (r: u8)
        requires
            self.wf(),
        ensures
            r as nat == field_value(self@, 0, 2),
    {
        read_u8(&self.bytes, 0, 0, 2)
    }

    pub fn mhf(&self) -> (r: u8)
        requires
            self.wf(),
        ensures
            r as nat == field_value(self@, 2, 2),
    {
        read_u8(&self.bytes, 0, 2, 2)
    }

    pub fn mh_id(&self) -> (r: u8)
        requires
            self.wf(),
        ensures
            r as nat == field_value(self@, 4, 3),
    {
        read_u8(&self.bytes, 0, 4, 3)
    }

    pub fn is_tile_packetized(&self) -> (r: bool)
        requires
            self.wf(),
        ensures
            r == (field_value(self@, 7, 1) == 1),
    {
        read_flag(&self.bytes, 0, 7)
    }

    pub fn priority(&self) -> (r: u8)
        requires
            self.wf(),
        ensures
            r as nat == field_value(self@, 8, 8),
    {
        read_u8(&self.bytes, 0, 8, 8)
    }

    pub fn tile_number(&self) -> (r: u16)
        requires
            self.wf(),
        ensures
            r as nat == field_value(self@, 16, 16),
    {
        read_u16(&self.bytes, 0, 16, 16)
    }

    pub fn fragment_offset(&self) -> (r: u32)
        requires
            self.wf(),
        ensures
            r as nat == field_value(self@, 40, 24),
    {
        read_u32(&self.bytes, 1, 8, 24)
    }

    pub fn set_tp(&mut self, value: u8)
        requires
            old(self).wf(),
        ensures
            final(self)@ == with_field(old(self)@, 0, 2, value as nat),
    {
        write_bits(&mut self.bytes, 0, 0, 2, value as u64);
    }

    pub fn set_mhf(&mut self, value: u8)
        requires
            old(self).wf(),
        ensures
            final(self)@ == with_field(old(self)@, 2, 2, value as nat),
    {
        write_bits(&mut self.bytes, 0, 2, 2, value as u64);
    }

    pub fn set_mh_id(&mut self, value: u8)
        requires
            old(self).wf(),
        ensures
            final(self)@ == with_field(old(self)@, 4, 3, value as nat),
    {
        write_bits(&mut self.bytes, 0, 4, 3, value as u64);
    }

    pub fn set_tile_packetized(&mut self, value: bool)
        requires
            old(self).wf(),
        ensures
            final(self)@ == with_field(old(self)@, 7, 1, flag_value(value)),
    {
        write_flag(&mut self.bytes, 0, 7, value);
    }

    pub fn set_priority(&mut self, value: u8)
        requires
            old(self).wf(),
        ensures
            final(self)@ == with_field(old(self)@, 8, 8, value as nat),
    {
        write_bits(&mut self.bytes, 0, 8, 8, value as u64);
    }

    pub fn set_tile_number(&mut self, value: u16)
        requires
            old(self).wf(),
        ensures
            final(self)@ == with_field(old(self)@, 16, 16, value as nat),
    {
        write_bits(&mut self.bytes, 0, 16, 16, value as u64);
    }

    pub fn set_fragment_offset(&mut self, value: u32)
        requires
            old(self).wf(),
        ensures
            final(self)@ == with_field(old(self)@, 40, 24, value as nat),
    {
        write_bits(&mut self.bytes, 1, 8, 24, value as u64);
    }
}

} // verus!
