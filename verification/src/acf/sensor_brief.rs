//! ACF Sensor Brief message, per IEEE Std 1722-2016: the short-form
//! Sensor variant that omits the per-message timestamp.
use vstd::prelude::*;
use crate::common::AcfMsgType;
use crate::error::{Error, Result};
use crate::field::{field_value, with_field, flag_value, read_u8, read_u16, read_flag, write_bits, write_flag};
use crate::pdu::check_header_room;
use crate::acf_common::{fresh_message, frame_ok, start_message, message_frame_ok};

verus! {

broadcast use crate::field::lemma_with_field_len;

/// Size of the Sensor Brief message header in bytes.
pub const HEADER_LEN: usize = 4;

/// An ACF Sensor Brief message.
pub struct SensorBrief {
    bytes: Vec<u8>,
}

impl View for SensorBrief {
    type V = Seq<u8>;

    closed spec fn view(&self) -> Seq<u8> {
        self.bytes@
    }
}

impl SensorBrief {
    /// The buffer holds at least a whole header.
    pub open spec fn wf(&self) -> bool {
        self@.len() >= HEADER_LEN
    }

    /// The header a talker starts from: every header byte cleared and the
    /// message type set to SensorBrief, with a length of one quadlet (the header).
    pub open spec fn initial(buf: Seq<u8>) -> Seq<u8> {
        with_field(fresh_message(buf, HEADER_LEN as int, AcfMsgType::SensorBrief.code() as nat), 7, 9, 1)
    }

    /// Wraps `buf`; fails with [`Error::BufferTooSmall`] when it cannot hold
    /// a whole header.
    pub fn new(buf: Vec<u8>) -> (r: Result<Self>)
        ensures
            r is Ok <==> buf.len() >= HEADER_LEN,
            r matches Ok(p) ==> p@ == buf@,
            r matches Err(e) ==> e == (Error::BufferTooSmall { required: HEADER_LEN, actual: buf.len() }),
    {
        match check_header_room(buf.len(), HEADER_LEN) {
            Ok(()) => Ok(SensorBrief { bytes: buf }),
            Err(e) => Err(e),
        }
    }

    /// Wraps `buf` and writes a fresh header into it, as [`Self::initial`]
    /// describes. Use on the talker side.
    pub fn initialized(buf: Vec<u8>) -> (r: Result<Self>)
        ensures
            r is Ok <==> buf.len() >= HEADER_LEN,
            r matches Ok(p) ==> p@ == Self::initial(buf@),
            r matches Err(e) ==> e == (Error::BufferTooSmall { required: HEADER_LEN, actual: buf.len() }),
    {
        match Self::new(buf) {
            Ok(mut pdu) => {
                start_message(&mut pdu.bytes, HEADER_LEN, AcfMsgType::SensorBrief.as_u8());
                write_bits(&mut pdu.bytes, 0, 7, 9, 1);
                Ok(pdu)
            },
            Err(e) => Err(e),
        }
    }

    /// The whole buffer.
    pub fn as_bytes(&self) -> (bytes: &[u8])
        ensures
            bytes@ == self@,
    {
        self.bytes.as_slice()
    }

    /// Gives the buffer back.
    pub fn into_inner(self) -> (bytes: Vec<u8>)
        ensures
            bytes@ == self@,
    {
        self.bytes
    }

    /// The whole buffer, for writing.
    pub fn as_bytes_mut(&mut self) -> (bytes: &mut [u8])
        ensures
            bytes@ == old(self)@,
            final(self)@ == final(bytes)@,
    {
        self.bytes.as_mut_slice()
    }

    pub fn num_sensor(&self) -> (r: u8)
        requires
            self.wf(),
        ensures
            r as nat == field_value(self@, 17, 7),
    {
        read_u8(&self.bytes, 0, 17, 7)
    }

    /// `sz`: encoded width of each sensor reading.
    pub fn sensor_size(&self) -> (r: u8)
        requires
            self.wf(),
        ensures
            r as nat == field_value(self@, 24, 2),
    {
        read_u8(&self.bytes, 0, 24, 2)
    }

    pub fn sensor_group(&self) -> (r: u8)
        requires
            self.wf(),
        ensures
            r as nat == field_value(self@, 26, 6),
    {
        read_u8(&self.bytes, 0, 26, 6)
    }

    /// Length of the ACF message in quadlets (header, payload and pad).
    pub fn acf_msg_length(&self) -> (r: u16)
        requires
            self.wf(),
        ensures
            r as nat == field_value(self@, 7, 9),
    {
        read_u16(&self.bytes, 0, 7, 9)
    }

    /// `mtv`: timestamp on the wrapping container is meaningful.
    pub fn is_message_timestamp_valid(&self) -> (r: bool)
        requires
            self.wf(),
        ensures
            r == (field_value(self@, 16, 1) == 1),
    {
        read_flag(&self.bytes, 0, 16)
    }

    /// Structural validity: the message type matches and the declared
    /// length covers the header and fits the buffer.
    pub fn is_valid(&self) -> (ok: bool)
        requires
            self.wf(),
        ensures
            ok == frame_ok(self@, HEADER_LEN as int, AcfMsgType::SensorBrief.code() as nat),
    {
        message_frame_ok(&self.bytes, HEADER_LEN, AcfMsgType::SensorBrief.as_u8())
    }

    pub fn set_num_sensor(&mut self, value: u8)
        requires
            old(self).wf(),
        ensures
            final(self)@ == with_field(old(self)@, 17, 7, value as nat),
    {
        write_bits(&mut self.bytes, 0, 17, 7, value as u64);
    }

    pub fn set_sensor_size(&mut self, value: u8)
        requires
            old(self).wf(),
        ensures
            final(self)@ == with_field(old(self)@, 24, 2, value as nat),
    {
        write_bits(&mut self.bytes, 0, 24, 2, value as u64);
    }

    pub fn set_sensor_group(&mut self, value: u8)
        requires
            old(self).wf(),
        ensures
            final(self)@ == with_field(old(self)@, 26, 6, value as nat),
    {
        write_bits(&mut self.bytes, 0, 26, 6, value as u64);
    }

    pub fn set_message_timestamp_valid(&mut self, value: bool)
        requires
            old(self).wf(),
        ensures
            final(self)@ == with_field(old(self)@, 16, 1, flag_value(value)),
    {
        write_flag(&mut self.bytes, 0, 16, value);
    }
}

} // verus!
