//! IEEE 1722 UDP encapsulation header.
use vstd::prelude::*;
use crate::error::{Error, Result};
use crate::field::{field_value, with_field, read_u32, write_bits};
use crate::pdu::{check_header_room, cleared, clear_bytes};

verus! {

broadcast use crate::field::lemma_with_field_len;

/// Size of the UDP encapsulation header in bytes.
pub const HEADER_LEN: usize = 4;

/// IEEE 1722 over UDP: the encapsulation header that precedes the AVTP PDU.
pub struct Udp {
    bytes: Vec<u8>,
}

impl View for Udp {
    type V = Seq<u8>;

    closed spec fn view(&self) -> Seq<u8> {
        self.bytes@
    }
}

impl Udp {
    /// The buffer holds at least a whole header.
    pub open spec fn wf(&self) -> bool {
        self@.len() >= HEADER_LEN
    }

    /// The header a talker starts from: every encapsulation header byte cleared.
    pub open spec fn initial(buf: Seq<u8>) -> Seq<u8> {
        cleared(buf, 0, HEADER_LEN as int)
    }

    /// Wraps `buf`; fails with [`Error::BufferTooSmall`] when it cannot hold
    /// a whole header.
    pub fn new(buf: Vec<u8>) -> (r: Result<Self>)
        ensures
            r is Ok <==> buf.len() >= HEADER_LEN,
            r matches Ok(p) ==> p@ == buf@,
            r matches Err(e) ==> e == (Error::BufferTooSmall { required: HEADER_LEN, actual: buf.len() }),
    {
        match check_header_room(buf.len(), HEADER_LEN) {
            Ok(()) => Ok(Udp { bytes: buf }),
            Err(e) => Err(e),
        }
    }

    /// Wraps `buf` and writes a fresh header into it, as [`Self::initial`]
    /// describes. Use on the talker side.
    pub fn initialized(buf: Vec<u8>) -> (r: Result<Self>)
        ensures
            r is Ok <==> buf.len() >= HEADER_LEN,
            r matches Ok(p) ==> p@ == Self::initial(buf@),
            r matches Err(e) ==> e == (Error::BufferTooSmall { required: HEADER_LEN, actual: buf.len() }),
    {
        match Self::new(buf) {
            Ok(mut pdu) => {
                clear_bytes(&mut pdu.bytes, 0, HEADER_LEN);
                Ok(pdu)
            },
            Err(e) => Err(e),
        }
    }

    /// The whole buffer.
    pub fn as_bytes(&self) -> (bytes: &[u8])
        ensures
            bytes@ == self@,
    {
        self.bytes.as_slice()
    }

    /// Gives the buffer back.
    pub fn into_inner(self) -> (bytes: Vec<u8>)
        ensures
            bytes@ == self@,
    {
        self.bytes
    }

    /// The whole buffer, for writing.
    pub fn as_bytes_mut(&mut self) -> (bytes: &mut [u8])
        ensures
            bytes@ == old(self)@,
            final(self)@ == final(bytes)@,
    {
        self.bytes.as_mut_slice()
    }

    pub fn encapsulation_seq_no(&self) -> (r: u32)
        requires
            self.wf(),
        ensures
            r as nat == field_value(self@, 0, 32),
    {
        read_u32(&self.bytes, 0, 0, 32)
    }

    pub fn set_encapsulation_seq_no(&mut self, value: u32)
        requires
            old(self).wf(),
        ensures
            final(self)@ == with_field(old(self)@, 0, 32, value as nat),
    {
        write_bits(&mut self.bytes, 0, 0, 32, value as u64);
    }
}

impl Default for Udp {
    /// A header-sized buffer with every byte cleared.
    fn default() -> (udp: Self)
        ensures
            udp@ == Seq::new(HEADER_LEN as nat, |i: int| 0u8),
    {
        let udp = Udp { bytes: vec![0u8; HEADER_LEN] };
        assert(udp@ =~= Seq::new(HEADER_LEN as nat, |i: int| 0u8));
        udp
    }
}

} // verus!
