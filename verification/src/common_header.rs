//! AVTP common header: the first quadlet of every IEEE 1722 PDU.
//!
//! Use it to peek at the subtype of an unknown frame before dispatching to
//! the format-specific parser.
use vstd::prelude::*;
use crate::pdu::{header_room, check_header_room};
use crate::common::Subtype;
use crate::error::{Error, Result};
use crate::field::{field_value, with_field, flag_value, read_u8, read_flag, write_bits, write_flag, lemma_get_after_set, lemma_set_keeps_other_fields};

verus! {

broadcast use crate::field::lemma_with_field_len;

/// Size of the AVTP common header in bytes.
pub const HEADER_LEN: usize = 4;

/// The AVTP common header of a PDU of any subtype.
pub struct CommonHeader {
    bytes: Vec<u8>,
}

impl View for CommonHeader {
    type V = Seq<u8>;

    closed spec fn view(&self) -> Seq<u8> {
        self.bytes@
    }
}

impl CommonHeader {
    /// The buffer holds at least a whole header.
    pub open spec fn wf(&self) -> bool {
        self@.len() >= HEADER_LEN
    }

    /// Wraps `buf`; fails with [`Error::BufferTooSmall`] when it cannot hold
    /// the header.
    pub fn new(buf: Vec<u8>) -> (r: Result<Self>)
        ensures
            r is Ok <==> buf.len() >= HEADER_LEN,
            r matches Ok(p) ==> p@ == buf@,
            r matches Err(e) ==> e == (Error::BufferTooSmall { required: HEADER_LEN, actual: buf.len() }),
    {
        match check_len(buf.len()) {
            Ok(()) => Ok(CommonHeader { bytes: buf }),
            Err(e) => Err(e),
        }
    }

    /// The whole buffer.
    pub fn as_bytes(&self) -> (bytes: &[u8])
        ensures
            bytes@ == self@,
    {
        self.bytes.as_slice()
    }

    /// Gives the buffer back.
    pub fn into_inner(self) -> (bytes: Vec<u8>)
        ensures
            bytes@ == self@,
    {
        self.bytes
    }

    /// The whole buffer, for writing.
    pub fn as_bytes_mut(&mut self) -> (bytes: &mut [u8])
        ensures
            bytes@ == old(self)@,
            final(self)@ == final(bytes)@,
    {
        self.bytes.as_mut_slice()
    }

    /// The subtype; fails with [`Error::InvalidValue`] for a code no subtype
    /// has, which [`Self::subtype_raw`] still gives.
    pub fn subtype(&self) -> (r: Result<Subtype>)
        requires
            self.wf(),
        ensures
            r == Subtype::decode(field_value(self@, 0, 8) as u8),
    {
        Subtype::try_from(read_u8(&self.bytes, 0, 0, 8))
    }

    pub fn subtype_raw(&self) -> (r: u8)
        requires
            self.wf(),
        ensures
            r as nat == field_value(self@, 0, 8),
    {
        read_u8(&self.bytes, 0, 0, 8)
    }

    pub fn version(&self) -> (r: u8)
        requires
            self.wf(),
        ensures
            r as nat == field_value(self@, 9, 3),
    {
        read_u8(&self.bytes, 0, 9, 3)
    }

    /// The header-specific (`h`) bit, whose meaning depends on the subtype.
    pub fn h(&self) -> (r: bool)
        requires
            self.wf(),
        ensures
            r == (field_value(self@, 8, 1) == 1),
    {
        read_flag(&self.bytes, 0, 8)
    }

    pub fn set_subtype(&mut self, value: Subtype)
        requires
            old(self).wf(),
        ensures
            final(self)@ == with_field(old(self)@, 0, 8, value.code() as nat),
    {
        write_bits(&mut self.bytes, 0, 0, 8, value.as_u8() as u64);
    }

    /// Setting the subtype and reading it back gives it back, and the rest of
    /// the header quadlet stays as it was.
    pub proof fn lemma_set_subtype_round_trip(bytes: Seq<u8>, value: Subtype)
        requires
            bytes.len() >= HEADER_LEN,
        ensures
            Subtype::decode(field_value(with_field(bytes, 0, 8, value.code() as nat), 0, 8) as u8)
                == Ok::<Subtype, Error>(value),
            field_value(with_field(bytes, 0, 8, value.code() as nat), 8, 24) == field_value(
                bytes,
                8,
                24,
            ),
    {
        vstd::arithmetic::power2::lemma2_to64();
        lemma_get_after_set(bytes, 0, 8, value.code() as nat);
        lemma_set_keeps_other_fields(bytes, 0, 8, value.code() as nat, 8, 24);
        value.lemma_decode_code();
    }

    pub fn set_subtype_raw(&mut self, value: u8)
        requires
            old(self).wf(),
        ensures
            final(self)@ == with_field(old(self)@, 0, 8, value as nat),
    {
        write_bits(&mut self.bytes, 0, 0, 8, value as u64);
    }

    pub fn set_version(&mut self, value: u8)
        requires
            old(self).wf(),
        ensures
            final(self)@ == with_field(old(self)@, 9, 3, value as nat),
    {
        write_bits(&mut self.bytes, 0, 9, 3, value as u64);
    }

    pub fn set_h(&mut self, value: bool)
        requires
            old(self).wf(),
        ensures
            final(self)@ == with_field(old(self)@, 8, 1, flag_value(value)),
    {
        write_flag(&mut self.bytes, 0, 8, value);
    }
}

/// Fails with [`Error::BufferTooSmall`] when `actual` bytes cannot hold the
/// common header.
pub fn check_len(actual: usize) -> (r: Result<()>)
    ensures
        r == header_room(actual, HEADER_LEN),
{
    check_header_room(actual, HEADER_LEN)
}

} // verus!
