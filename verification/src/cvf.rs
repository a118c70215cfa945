//! AVTP Compressed Video Format (CVF), per IEEE Std 1722-2016.
//!
//! Carries H.264, MJPEG, or JPEG 2000 video payloads. The codec-specific
//! extension headers are exposed as submodules: [`h264`], [`mjpeg`],
//! [`jpeg2000`].
pub mod h264;
pub mod jpeg2000;
pub mod mjpeg;

use vstd::prelude::*;
use crate::common::Subtype;
use crate::error::{Error, Result, invalid_value};
use crate::field::{field_value, with_field, flag_value, read_bits, read_u8, read_u16, read_u32, read_flag, write_bits, write_flag, lemma_get_after_set, lemma_set_keeps_other_fields};
use crate::pdu::{check_header_room, fresh_stream_header, start_stream_header, lemma_fresh_stream_header};

verus! {

broadcast use crate::field::lemma_with_field_len;

/// CVF payload codec identifier (`format_subtype` field).
#[derive(Debug, Clone, Copy, PartialEq, Eq, Structural)]
pub enum Codec {
    Mjpeg,
    H264,
    Jpeg2000,
}

impl Codec {
    /// The code that stands for this value on the wire.
    pub open spec fn code(self) -> u8 {
        match self {
            Codec::Mjpeg => 0x00,
            Codec::H264 => 0x01,
            Codec::Jpeg2000 => 0x02,
        }
    }

    /// The value a wire code stands for, if it stands for one.
    pub open spec fn from_code(code: u8) -> Option<Codec> {
        match code {
            0x00 => Some(Codec::Mjpeg),
            0x01 => Some(Codec::H264),
            0x02 => Some(Codec::Jpeg2000),
            _ => None,
        }
    }

    /// Decoding of a wire code: the value it stands for, or
    /// [`Error::InvalidValue`] naming the code.
    pub open spec fn decode(code: u8) -> Result<Codec> {
        match Codec::from_code(code) {
            Some(v) => Ok(v),
            None => Err(Error::InvalidValue { field: "CVF codec (format_subtype)", value: code as u64 }),
        }
    }

    /// The wire code of this value.
    pub fn as_u8(self) -> (code: u8)
        ensures
            code == self.code(),
    {
        match self {
            Codec::Mjpeg => 0x00,
            Codec::H264 => 0x01,
            Codec::Jpeg2000 => 0x02,
        }
    }

    /// Decodes a wire code; fails with [`Error::InvalidValue`] on a code with no meaning.
    pub fn from_raw(value: u8) -> (r: Result<Codec>)
        ensures
            r == Codec::decode(value),
    {
        match value {
            0x00 => Ok(Codec::Mjpeg),
            0x01 => Ok(Codec::H264),
            0x02 => Ok(Codec::Jpeg2000),
            other => Err(invalid_value("CVF codec (format_subtype)", other)),
        }
    }

    /// Decoding the wire code of a value gives the value back.
    pub proof fn lemma_decode_code(self)
        ensures
            Codec::decode(self.code()) == Ok::<Codec, Error>(self),
    {
    }

    /// A code that decodes to a value is that value's code.
    pub proof fn lemma_code_of_decoded(code: u8)
        ensures
            Codec::decode(code) matches Ok(v) ==> v.code() == code,
    {
    }

    /// Every value goes on the wire as its code in the CVF `format_subtype` codes of IEEE Std 1722.
    pub proof fn lemma_wire_codes()
        ensures
            Codec::Mjpeg.code() == 0x00,
            Codec::H264.code() == 0x01,
            Codec::Jpeg2000.code() == 0x02,
    {
    }
}

/// Size of the CVF stream header in bytes.
pub const HEADER_LEN: usize = 24;

/// A Compressed Video Format PDU.
pub struct Cvf {
    bytes: Vec<u8>,
}

impl View for Cvf {
    type V = Seq<u8>;

    closed spec fn view(&self) -> Seq<u8> {
        self.bytes@
    }
}

impl Cvf {
    /// The buffer holds at least a whole header.
    pub open spec fn wf(&self) -> bool {
        self@.len() >= HEADER_LEN
    }

    /// The header a talker starts from: every header byte cleared, the
    /// subtype set to CVF, the `sv` (stream id valid) bit set and the format
    /// set to RFC payload (2).
    pub open spec fn initial(buf: Seq<u8>) -> Seq<u8> {
        with_field(fresh_stream_header(buf, HEADER_LEN as int, Subtype::Cvf.code() as nat), 128, 8, 2)
    }

    /// An initialized CVF header carries the CVF subtype code 0x03.
    pub proof fn lemma_initial_subtype(buf: Seq<u8>)
        requires
            buf.len() >= HEADER_LEN,
        ensures
            field_value(Self::initial(buf), 0, 8) == 0x03,
            Subtype::decode(field_value(Self::initial(buf), 0, 8) as u8) == Ok::<Subtype, Error>(Subtype::Cvf),
    {
        Subtype::lemma_wire_codes();
        let f = fresh_stream_header(buf, HEADER_LEN as int, Subtype::Cvf.code() as nat);
        lemma_fresh_stream_header(buf, HEADER_LEN as int, Subtype::Cvf.code() as nat);
        lemma_set_keeps_other_fields(f, 128, 8, 2, 0, 8);
    }

    /// Setting a codec and reading it back gives it back, in any buffer; on
    /// the wire MJPEG is `format_subtype` 0, H.264 is 1 and JPEG 2000 is 2, and
    /// a header carrying one of those codes reads as that codec.
    pub proof fn lemma_codec_on_wire(bytes: Seq<u8>, codec: Codec)
        requires
            bytes.len() >= HEADER_LEN,
        ensures
            Codec::decode(field_value(with_field(bytes, 136, 8, codec.code() as nat), 136, 8) as u8)
                == Ok::<Codec, Error>(codec),
            field_value(with_field(bytes, 136, 8, codec.code() as nat), 136, 8) == match codec {
                Codec::Mjpeg => 0nat,
                Codec::H264 => 1nat,
                Codec::Jpeg2000 => 2nat,
            },
            field_value(bytes, 136, 8) == 0 ==> Codec::decode(field_value(bytes, 136, 8) as u8)
                == Ok::<Codec, Error>(Codec::Mjpeg),
            field_value(bytes, 136, 8) == 1 ==> Codec::decode(field_value(bytes, 136, 8) as u8)
                == Ok::<Codec, Error>(Codec::H264),
            field_value(bytes, 136, 8) == 2 ==> Codec::decode(field_value(bytes, 136, 8) as u8)
                == Ok::<Codec, Error>(Codec::Jpeg2000),
    {
        Codec::lemma_wire_codes();
        vstd::arithmetic::power2::lemma2_to64();
        lemma_get_after_set(bytes, 136, 8, codec.code() as nat);
        codec.lemma_decode_code();
    }

    /// Wraps `buf`; fails with [`Error::BufferTooSmall`] when it cannot hold
    /// a whole header.
    pub fn new(buf: Vec<u8>) -> (r: Result<Self>)
        ensures
            r is Ok <==> buf.len() >= HEADER_LEN,
            r matches Ok(p) ==> p@ == buf@,
            r matches Err(e) ==> e == (Error::BufferTooSmall { required: HEADER_LEN, actual: buf.len() }),
    {
        match check_header_room(buf.len(), HEADER_LEN) {
            Ok(()) => Ok(Cvf { bytes: buf }),
            Err(e) => Err(e),
        }
    }

    /// Wraps `buf` and writes a fresh header into it, as [`Self::initial`]
    /// describes. Use on the talker side.
    pub fn initialized(buf: Vec<u8>) -> (r: Result<Self>)
        ensures
            r is Ok <==> buf.len() >= HEADER_LEN,
            r matches Ok(p) ==> p@ == Self::initial(buf@),
            r matches Err(e) ==> e == (Error::BufferTooSmall { required: HEADER_LEN, actual: buf.len() }),
    {
        match Self::new(buf) {
            Ok(mut pdu) => {
                start_stream_header(&mut pdu.bytes, HEADER_LEN, Subtype::Cvf.as_u8());
                write_bits(&mut pdu.bytes, 4, 0, 8, 2);
                Ok(pdu)
            },
            Err(e) => Err(e),
        }
    }

    /// The whole buffer.
    pub fn as_bytes(&self) -> (bytes: &[u8])
        ensures
            bytes@ == self@,
    {
        self.bytes.as_slice()
    }

    /// Gives the buffer back.
    pub fn into_inner(self) -> (bytes: Vec<u8>)
        ensures
            bytes@ == self@,
    {
        self.bytes
    }

    /// The whole buffer, for writing.
    pub fn as_bytes_mut(&mut self) -> (bytes: &mut [u8])
        ensures
            bytes@ == old(self)@,
            final(self)@ == final(bytes)@,
    {
        self.bytes.as_mut_slice()
    }

    pub fn subtype(&self) -> (r: u8)
        requires
            self.wf(),
        ensures
            r as nat == field_value(self@, 0, 8),
    {
        read_u8(&self.bytes, 0, 0, 8)
    }

    pub fn version(&self) -> (r: u8)
        requires
            self.wf(),
        ensures
            r as nat == field_value(self@, 9, 3),
    {
        read_u8(&self.bytes, 0, 9, 3)
    }

    pub fn sequence_num(&self) -> (r: u8)
        requires
            self.wf(),
        ensures
            r as nat == field_value(self@, 16, 8),
    {
        read_u8(&self.bytes, 0, 16, 8)
    }

    pub fn stream_id(&self) -> (r: u64)
        requires
            self.wf(),
        ensures
            r as nat == field_value(self@, 32, 64),
    {
        read_bits(&self.bytes, 1, 0, 64)
    }

    pub fn avtp_timestamp(&self) -> (r: u32)
        requires
            self.wf(),
        ensures
            r as nat == field_value(self@, 96, 32),
    {
        read_u32(&self.bytes, 3, 0, 32)
    }

    pub fn stream_data_length(&self) -> (r: u16)
        requires
            self.wf(),
        ensures
            r as nat == field_value(self@, 160, 16),
    {
        read_u16(&self.bytes, 5, 0, 16)
    }

    pub fn codec(&self) -> (r: Result<Codec>)
        requires
            self.wf(),
        ensures
            r == Codec::decode(field_value(self@, 136, 8) as u8),
    {
        Codec::from_raw(read_u8(&self.bytes, 4, 8, 8))
    }

    pub fn evt(&self) -> (r: u8)
        requires
            self.wf(),
        ensures
            r as nat == field_value(self@, 180, 4),
    {
        read_u8(&self.bytes, 5, 20, 4)
    }

    /// `sv`: `stream_id` carries a meaningful value.
    pub fn is_stream_id_valid(&self) -> (r: bool)
        requires
            self.wf(),
        ensures
            r == (field_value(self@, 8, 1) == 1),
    {
        read_flag(&self.bytes, 0, 8)
    }

    /// `mr`: the media clock has been reset since the last PDU.
    pub fn is_media_reset(&self) -> (r: bool)
        requires
            self.wf(),
        ensures
            r == (field_value(self@, 12, 1) == 1),
    {
        read_flag(&self.bytes, 0, 12)
    }

    /// `tv`: `avtp_timestamp` carries a meaningful value.
    pub fn is_timestamp_valid(&self) -> (r: bool)
        requires
            self.wf(),
        ensures
            r == (field_value(self@, 15, 1) == 1),
    {
        read_flag(&self.bytes, 0, 15)
    }

    /// `tu`: the talker is uncertain about the timestamp.
    pub fn is_timestamp_uncertain(&self) -> (r: bool)
        requires
            self.wf(),
        ensures
            r == (field_value(self@, 31, 1) == 1),
    {
        read_flag(&self.bytes, 0, 31)
    }

    /// `ptv`: codec-specific presentation timestamp is valid.
    pub fn is_presentation_timestamp_valid(&self) -> (r: bool)
        requires
            self.wf(),
        ensures
            r == (field_value(self@, 178, 1) == 1),
    {
        read_flag(&self.bytes, 5, 18)
    }

    /// `m` (marker): this PDU completes a video frame.
    pub fn is_marker(&self) -> (r: bool)
        requires
            self.wf(),
        ensures
            r == (field_value(self@, 179, 1) == 1),
    {
        read_flag(&self.bytes, 5, 19)
    }

    pub fn set_version(&mut self, value: u8)
        requires
            old(self).wf(),
        ensures
            final(self)@ == with_field(old(self)@, 9, 3, value as nat),
    {
        write_bits(&mut self.bytes, 0, 9, 3, value as u64);
    }

    pub fn set_sequence_num(&mut self, value: u8)
        requires
            old(self).wf(),
        ensures
            final(self)@ == with_field(old(self)@, 16, 8, value as nat),
    {
        write_bits(&mut self.bytes, 0, 16, 8, value as u64);
    }

    pub fn set_stream_id(&mut self, value: u64)
        requires
            old(self).wf(),
        ensures
            final(self)@ == with_field(old(self)@, 32, 64, value as nat),
    {
        write_bits(&mut self.bytes, 1, 0, 64, value as u64);
    }

    pub fn set_avtp_timestamp(&mut self, value: u32)
        requires
            old(self).wf(),
        ensures
            final(self)@ == with_field(old(self)@, 96, 32, value as nat),
    {
        write_bits(&mut self.bytes, 3, 0, 32, value as u64);
    }

    pub fn set_stream_data_length(&mut self, value: u16)
        requires
            old(self).wf(),
        ensures
            final(self)@ == with_field(old(self)@, 160, 16, value as nat),
    {
        write_bits(&mut self.bytes, 5, 0, 16, value as u64);
    }

    pub fn set_codec(&mut self, value: Codec)
        requires
            old(self).wf(),
        ensures
            final(self)@ == with_field(old(self)@, 136, 8, value.code() as nat),
    {
        write_bits(&mut self.bytes, 4, 8, 8, value.as_u8() as u64);
    }

    pub fn set_evt(&mut self, value: u8)
        requires
            old(self).wf(),
        ensures
            final(self)@ == with_field(old(self)@, 180, 4, value as nat),
    {
        write_bits(&mut self.bytes, 5, 20, 4, value as u64);
    }

    pub fn set_stream_id_valid(&mut self, value: bool)
        requires
            old(self).wf(),
        ensures
            final(self)@ == with_field(old(self)@, 8, 1, flag_value(value)),
    {
        write_flag(&mut self.bytes, 0, 8, value);
    }

    pub fn set_media_reset(&mut self, value: bool)
        requires
            old(self).wf(),
        ensures
            final(self)@ == with_field(old(self)@, 12, 1, flag_value(value)),
    {
        write_flag(&mut self.bytes, 0, 12, value);
    }

    pub fn set_timestamp_valid(&mut self, value: bool)
        requires
            old(self).wf(),
        ensures
            final(self)@ == with_field(old(self)@, 15, 1, flag_value(value)),
    {
        write_flag(&mut self.bytes, 0, 15, value);
    }

    pub fn set_timestamp_uncertain(&mut self, value: bool)
        requires
            old(self).wf(),
        ensures
            final(self)@ == with_field(old(self)@, 31, 1, flag_value(value)),
    {
        write_flag(&mut self.bytes, 0, 31, value);
    }

    pub fn set_presentation_timestamp_valid(&mut self, value: bool)
        requires
            old(self).wf(),
        ensures
            final(self)@ == with_field(old(self)@, 178, 1, flag_value(value)),
    {
        write_flag(&mut self.bytes, 5, 18, value);
    }

    pub fn set_marker(&mut self, value: bool)
        requires
            old(self).wf(),
        ensures
            final(self)@ == with_field(old(self)@, 179, 1, flag_value(value)),
    {
        write_flag(&mut self.bytes, 5, 19, value);
    }
}

} // verus!
