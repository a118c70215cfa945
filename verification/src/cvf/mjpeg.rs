//! MJPEG codec extension header that follows a CVF stream header.
use vstd::prelude::*;
use crate::error::{Error, Result};
use crate::field::{field_value, with_field, read_u8, read_u32, write_bits};
use crate::pdu::{check_header_room, cleared, clear_bytes};

verus! {

broadcast use crate::field::lemma_with_field_len;

/// Size of the MJPEG extension header in bytes.
pub const HEADER_LEN: usize = 8;

/// The MJPEG codec extension header that follows a CVF stream header.
pub struct Mjpeg {
    bytes: Vec<u8>,
}

impl View for Mjpeg {
    type V = Seq<u8>;

    closed spec fn view(&self) -> Seq<u8> {
        self.bytes@
    }
}

impl Mjpeg {
    /// The buffer holds at least a whole header.
    pub open spec fn wf(&self) -> bool {
        self@.len() >= HEADER_LEN
    }

    /// The header a talker starts from: every MJPEG header byte cleared.
    pub open spec fn initial(buf: Seq<u8>) -> Seq<u8> {
        cleared(buf, 0, HEADER_LEN as int)
    }

    /// Wraps `buf`; fails with [`Error::BufferTooSmall`] when it cannot hold
    /// a whole header.
    pub fn new(buf: Vec<u8>) -> (r: Result<Self>)
        ensures
            r is Ok <==> buf.len() >= HEADER_LEN,
            r matches Ok(p) ==> p@ == buf@,
            r matches Err(e) ==> e == (Error::BufferTooSmall { required: HEADER_LEN, actual: buf.len() }),
    {
        match check_header_room(buf.len(), HEADER_LEN) {
            Ok(()) => Ok(Mjpeg { bytes: buf }),
            Err(e) => Err(e),
        }
    }

    /// Wraps `buf` and writes a fresh header into it, as [`Self::initial`]
    /// describes. Use on the talker side.
    pub fn initialized(buf: Vec<u8>) -> (r: Result<Self>)
        ensures
            r is Ok <==> buf.len() >= HEADER_LEN,
            r matches Ok(p) ==> p@ == Self::initial(buf@),
            r matches Err(e) ==> e == (Error::BufferTooSmall { required: HEADER_LEN, actual: buf.len() }),
    {
        match Self::new(buf) {
            Ok(mut pdu) => {
                clear_bytes(&mut pdu.bytes, 0, HEADER_LEN);
                Ok(pdu)
            },
            Err(e) => Err(e),
        }
    }

    /// The whole buffer.
    pub fn as_bytes(&self) -> (bytes: &[u8])
        ensures
            bytes@ == self@,
    {
        self.bytes.as_slice()
    }

    /// Gives the buffer back.
    pub fn into_inner(self) -> (bytes: Vec<u8>)
        ensures
            bytes@ == self@,
    {
        self.bytes
    }

    /// The whole buffer, for writing.
    pub fn as_bytes_mut(&mut self) -> (bytes: &mut [u8])
        ensures
            bytes@ == old(self)@,
            final(self)@ == final(bytes)@,
    {
        self.bytes.as_mut_slice()
    }

    pub fn type_specific(&self) -> (r: u8)
        requires
            self.wf(),
        ensures
            r as nat == field_value(self@, 0, 8),
    {
        read_u8(&self.bytes, 0, 0, 8)
    }

    pub fn fragment_offset(&self) -> (r: u32)
        requires
            self.wf(),
        ensures
            r as nat == field_value(self@, 8, 24),
    {
        read_u32(&self.bytes, 0, 8, 24)
    }

    pub fn mjpeg_type(&self) -> (r: u8)
        requires
            self.wf(),
        ensures
            r as nat == field_value(self@, 32, 8),
    {
        read_u8(&self.bytes, 1, 0, 8)
    }

    pub fn quality(&self) -> (r: u8)
        requires
            self.wf(),
        ensures
            r as nat == field_value(self@, 40, 8),
    {
        read_u8(&self.bytes, 1, 8, 8)
    }

    pub fn width(&self) -> (r: u8)
        requires
            self.wf(),
        ensures
            r as nat == field_value(self@, 48, 8),
    {
        read_u8(&self.bytes, 1, 16, 8)
    }

    pub fn height(&self) -> (r: u8)
        requires
            self.wf(),
        ensures
            r as nat == field_value(self@, 56, 8),
    {
        read_u8(&self.bytes, 1, 24, 8)
    }

    pub fn set_type_specific(&mut self, value: u8)
        requires
            old(self).wf(),
        ensures
            final(self)@ == with_field(old(self)@, 0, 8, value as nat),
    {
        write_bits(&mut self.bytes, 0, 0, 8, value as u64);
    }

    pub fn set_fragment_offset(&mut self, value: u32)
        requires
            old(self).wf(),
        ensures
            final(self)@ == with_field(old(self)@, 8, 24, value as nat),
    {
        write_bits(&mut self.bytes, 0, 8, 24, value as u64);
    }

    pub fn set_mjpeg_type(&mut self, value: u8)
        requires
            old(self).wf(),
        ensures
            final(self)@ == with_field(old(self)@, 32, 8, value as nat),
    {
        write_bits(&mut self.bytes, 1, 0, 8, value as u64);
    }

    pub fn set_quality(&mut self, value: u8)
        requires
            old(self).wf(),
        ensures
            final(self)@ == with_field(old(self)@, 40, 8, value as nat),
    {
        write_bits(&mut self.bytes, 1, 8, 8, value as u64);
    }

    pub fn set_width(&mut self, value: u8)
        requires
            old(self).wf(),
        ensures
            final(self)@ == with_field(old(self)@, 48, 8, value as nat),
    {
        write_bits(&mut self.bytes, 1, 16, 8, value as u64);
    }

    pub fn set_height(&mut self, value: u8)
        requires
            old(self).wf(),
        ensures
            final(self)@ == with_field(old(self)@, 56, 8, value as nat),
    {
        write_bits(&mut self.bytes, 1, 24, 8, value as u64);
    }
}

} // verus!
