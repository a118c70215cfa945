//! ACF GBB (Generic Byte bus) message, per IEEE Std 1722-2025.
//! The full byte-bus variant: carries a per-message timestamp.
use vstd::prelude::*;
use crate::common::AcfMsgType;
use crate::error::{Error, Result};
use crate::field::{field_value, with_field, flag_value, read_bits, read_u8, read_u16, read_flag, write_bits, write_flag};
use crate::pdu::{check_header_room, pad_len};
use crate::acf_common::{msg_length_of, fresh_message, finalized, declared_payload_len, clamped_len, start_message, finalize_message, payload_len_declared, payload_slice, message_length_in_bytes};

verus! {

broadcast use crate::field::lemma_with_field_len;

/// Size of the GBB message header in bytes.
pub const HEADER_LEN: usize = 16;

/// The payload length a message declares (its length less header and pad).
pub open spec fn payload_length_of(bytes: Seq<u8>) -> nat {
    declared_payload_len(bytes, HEADER_LEN as int, true)
}

/// An ACF GBB (generic byte bus) message.
pub struct Gbb {
    bytes: Vec<u8>,
}

impl View for Gbb {
    type V = Seq<u8>;

    closed spec fn view(&self) -> Seq<u8> {
        self.bytes@
    }
}

impl Gbb {
    /// The buffer holds at least a whole header.
    pub open spec fn wf(&self) -> bool {
        self@.len() >= HEADER_LEN
    }

    /// The header a talker starts from: every header byte cleared and the
    /// message type set to ByteBus, with a length of four quadlets (the header).
    pub open spec fn initial(buf: Seq<u8>) -> Seq<u8> {
        with_field(fresh_message(buf, HEADER_LEN as int, AcfMsgType::ByteBus.code() as nat), 7, 9, 4)
    }

    /// Wraps `buf`; fails with [`Error::BufferTooSmall`] when it cannot hold
    /// a whole header.
    pub fn new(buf: Vec<u8>) -> (r: Result<Self>)
        ensures
            r is Ok <==> buf.len() >= HEADER_LEN,
            r matches Ok(p) ==> p@ == buf@,
            r matches Err(e) ==> e == (Error::BufferTooSmall { required: HEADER_LEN, actual: buf.len() }),
    {
        match check_header_room(buf.len(), HEADER_LEN) {
            Ok(()) => Ok(Gbb { bytes: buf }),
            Err(e) => Err(e),
        }
    }

    /// Wraps `buf` and writes a fresh header into it, as [`Self::initial`]
    /// describes. Use on the talker side.
    pub fn initialized(buf: Vec<u8>) -> (r: Result<Self>)
        ensures
            r is Ok <==> buf.len() >= HEADER_LEN,
            r matches Ok(p) ==> p@ == Self::initial(buf@),
            r matches Err(e) ==> e == (Error::BufferTooSmall { required: HEADER_LEN, actual: buf.len() }),
    {
        match Self::new(buf) {
            Ok(mut pdu) => {
                start_message(&mut pdu.bytes, HEADER_LEN, AcfMsgType::ByteBus.as_u8());
                write_bits(&mut pdu.bytes, 0, 7, 9, 4);
                Ok(pdu)
            },
            Err(e) => Err(e),
        }
    }

    /// The whole buffer.
    pub fn as_bytes(&self) -> (bytes: &[u8])
        ensures
            bytes@ == self@,
    {
        self.bytes.as_slice()
    }

    /// Gives the buffer back.
    pub fn into_inner(self) -> (bytes: Vec<u8>)
        ensures
            bytes@ == self@,
    {
        self.bytes
    }

    /// The whole buffer, for writing.
    pub fn as_bytes_mut(&mut self) -> (bytes: &mut [u8])
        ensures
            bytes@ == old(self)@,
            final(self)@ == final(bytes)@,
    {
        self.bytes.as_mut_slice()
    }

    pub fn pad(&self) -> (r: u8)
        requires
            self.wf(),
        ensures
            r as nat == field_value(self@, 16, 2),
    {
        read_u8(&self.bytes, 0, 16, 2)
    }

    /// `mtv`: `message_timestamp` carries a meaningful value.
    pub fn is_message_timestamp_valid(&self) -> (r: bool)
        requires
            self.wf(),
        ensures
            r == (field_value(self@, 18, 1) == 1),
    {
        read_flag(&self.bytes, 0, 18)
    }

    pub fn byte_bus_id(&self) -> (r: u16)
        requires
            self.wf(),
        ensures
            r as nat == field_value(self@, 21, 11),
    {
        read_u16(&self.bytes, 0, 21, 11)
    }

    pub fn message_timestamp(&self) -> (r: u64)
        requires
            self.wf(),
        ensures
            r as nat == field_value(self@, 32, 64),
    {
        read_bits(&self.bytes, 1, 0, 64)
    }

    /// `evt`: event code (4 bits).
    pub fn evt(&self) -> (r: u8)
        requires
            self.wf(),
        ensures
            r as nat == field_value(self@, 96, 4),
    {
        read_u8(&self.bytes, 3, 0, 4)
    }

    /// `hs`: handshake flag.
    pub fn is_handshake(&self) -> (r: bool)
        requires
            self.wf(),
        ensures
            r == (field_value(self@, 100, 1) == 1),
    {
        read_flag(&self.bytes, 3, 4)
    }

    /// `cs`: chip-select flag.
    pub fn is_chip_select(&self) -> (r: bool)
        requires
            self.wf(),
        ensures
            r == (field_value(self@, 101, 1) == 1),
    {
        read_flag(&self.bytes, 3, 5)
    }

    pub fn transaction_num(&self) -> (r: u8)
        requires
            self.wf(),
        ensures
            r as nat == field_value(self@, 104, 8),
    {
        read_u8(&self.bytes, 3, 8, 8)
    }

    /// `op`: operation flag (read/write direction).
    pub fn is_op(&self) -> (r: bool)
        requires
            self.wf(),
        ensures
            r == (field_value(self@, 112, 1) == 1),
    {
        read_flag(&self.bytes, 3, 16)
    }

    /// `rsp`: response flag.
    pub fn is_response(&self) -> (r: bool)
        requires
            self.wf(),
        ensures
            r == (field_value(self@, 113, 1) == 1),
    {
        read_flag(&self.bytes, 3, 17)
    }

    /// `err`: error flag.
    pub fn is_error(&self) -> (r: bool)
        requires
            self.wf(),
        ensures
            r == (field_value(self@, 114, 1) == 1),
    {
        read_flag(&self.bytes, 3, 18)
    }

    /// `ms`: more-segments flag.
    pub fn is_more_segments(&self) -> (r: bool)
        requires
            self.wf(),
        ensures
            r == (field_value(self@, 115, 1) == 1),
    {
        read_flag(&self.bytes, 3, 19)
    }

    /// `read_size` / `segment_num`: a shared 12-bit field whose meaning
    /// depends on whether this is a request (`read_size`) or a response
    /// (`segment_num`).
    pub fn read_size(&self) -> (r: u16)
        requires
            self.wf(),
        ensures
            r as nat == field_value(self@, 116, 12),
    {
        read_u16(&self.bytes, 3, 20, 12)
    }

    /// See [`Self::read_size`].
    pub fn segment_num(&self) -> (r: u16)
        requires
            self.wf(),
        ensures
            r as nat == field_value(self@, 116, 12),
    {
        read_u16(&self.bytes, 3, 20, 12)
    }

    /// Length of the ACF message in quadlets (header, payload and pad).
    pub fn acf_msg_length(&self) -> (r: u16)
        requires
            self.wf(),
        ensures
            r as nat == field_value(self@, 7, 9),
    {
        read_u16(&self.bytes, 0, 7, 9)
    }

    /// Payload length in bytes (excludes header and trailing pad).
    pub fn payload_length(&self) -> (r: u16)
        requires
            self.wf(),
        ensures
            r as nat == payload_length_of(self@),
    {
        payload_len_declared(&self.bytes, HEADER_LEN, true)
    }

    /// Total message length in bytes (header, payload and pad).
    pub fn message_length(&self) -> (r: u16)
        requires
            self.wf(),
        ensures
            r as nat == 4 * msg_length_of(self@),
    {
        message_length_in_bytes(&self.bytes)
    }

    /// Payload slice, cut at the end of the buffer.
    pub fn payload(&self) -> (p: &[u8])
        requires
            self.wf(),
        ensures
            p@ == self@.subrange(
                HEADER_LEN as int,
                HEADER_LEN + clamped_len(payload_length_of(self@) as int, HEADER_LEN as int, self@.len() as int),
            ),
    {
        let len = self.payload_length() as usize;
        payload_slice(&self.bytes, HEADER_LEN, len)
    }

    pub fn set_message_timestamp_valid(&mut self, value: bool)
        requires
            old(self).wf(),
        ensures
            final(self)@ == with_field(old(self)@, 18, 1, flag_value(value)),
    {
        write_flag(&mut self.bytes, 0, 18, value);
    }

    pub fn set_byte_bus_id(&mut self, value: u16)
        requires
            old(self).wf(),
        ensures
            final(self)@ == with_field(old(self)@, 21, 11, value as nat),
    {
        write_bits(&mut self.bytes, 0, 21, 11, value as u64);
    }

    pub fn set_message_timestamp(&mut self, value: u64)
        requires
            old(self).wf(),
        ensures
            final(self)@ == with_field(old(self)@, 32, 64, value as nat),
    {
        write_bits(&mut self.bytes, 1, 0, 64, value as u64);
    }

    pub fn set_evt(&mut self, value: u8)
        requires
            old(self).wf(),
        ensures
            final(self)@ == with_field(old(self)@, 96, 4, value as nat),
    {
        write_bits(&mut self.bytes, 3, 0, 4, value as u64);
    }

    pub fn set_handshake(&mut self, value: bool)
        requires
            old(self).wf(),
        ensures
            final(self)@ == with_field(old(self)@, 100, 1, flag_value(value)),
    {
        write_flag(&mut self.bytes, 3, 4, value);
    }

    pub fn set_chip_select(&mut self, value: bool)
        requires
            old(self).wf(),
        ensures
            final(self)@ == with_field(old(self)@, 101, 1, flag_value(value)),
    {
        write_flag(&mut self.bytes, 3, 5, value);
    }

    pub fn set_transaction_num(&mut self, value: u8)
        requires
            old(self).wf(),
        ensures
            final(self)@ == with_field(old(self)@, 104, 8, value as nat),
    {
        write_bits(&mut self.bytes, 3, 8, 8, value as u64);
    }

    pub fn set_op(&mut self, value: bool)
        requires
            old(self).wf(),
        ensures
            final(self)@ == with_field(old(self)@, 112, 1, flag_value(value)),
    {
        write_flag(&mut self.bytes, 3, 16, value);
    }

    pub fn set_response(&mut self, value: bool)
        requires
            old(self).wf(),
        ensures
            final(self)@ == with_field(old(self)@, 113, 1, flag_value(value)),
    {
        write_flag(&mut self.bytes, 3, 17, value);
    }

    pub fn set_error(&mut self, value: bool)
        requires
            old(self).wf(),
        ensures
            final(self)@ == with_field(old(self)@, 114, 1, flag_value(value)),
    {
        write_flag(&mut self.bytes, 3, 18, value);
    }

    pub fn set_more_segments(&mut self, value: bool)
        requires
            old(self).wf(),
        ensures
            final(self)@ == with_field(old(self)@, 115, 1, flag_value(value)),
    {
        write_flag(&mut self.bytes, 3, 19, value);
    }

    pub fn set_read_size(&mut self, value: u16)
        requires
            old(self).wf(),
        ensures
            final(self)@ == with_field(old(self)@, 116, 12, value as nat),
    {
        write_bits(&mut self.bytes, 3, 20, 12, value as u64);
    }

    pub fn set_segment_num(&mut self, value: u16)
        requires
            old(self).wf(),
        ensures
            final(self)@ == with_field(old(self)@, 116, 12, value as nat),
    {
        write_bits(&mut self.bytes, 3, 20, 12, value as u64);
    }

    /// Sets `acf_msg_length` and `pad` for a payload of `payload_len` bytes,
    /// zeroing the pad bytes. The payload bytes themselves must already be in
    /// place, and the buffer must hold them and their padding.
    pub fn set_payload_length(&mut self, payload_len: u16)
        requires
            old(self).wf(),
            HEADER_LEN + payload_len + pad_len(payload_len as int) <= old(self)@.len(),
        ensures
            final(self)@ == finalized(old(self)@, HEADER_LEN as int, payload_len as int, true),
    {
        finalize_message(&mut self.bytes, HEADER_LEN, payload_len as usize, true);
    }
}

} // verus!
