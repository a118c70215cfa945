//! AVTP Audio Format (AAF), PCM payload, per IEEE Std 1722-2016.
use vstd::prelude::*;
use crate::common::Subtype;
use crate::error::{Error, Result, invalid_value};
use crate::field::{field_value, with_field, flag_value, read_bits, read_u8, read_u16, read_u32, read_flag, write_bits, write_flag, lemma_get_after_set};
use crate::pdu::{check_header_room, fresh_stream_header, start_stream_header, lemma_fresh_stream_header};

verus! {

broadcast use crate::field::lemma_with_field_len;

/// AAF sample format. `User` covers application-defined formats; the rest
/// are the IEEE 1722 PCM payload encodings.
#[derive(Debug, Clone, Copy, PartialEq, Eq, Structural)]
pub enum Format {
    User,
    Float32,
    Int32,
    Int24,
    Int16,
    Aes3_32,
}

impl Format {
    /// The code that stands for this value on the wire.
    pub open spec fn code(self) -> u8 {
        match self {
            Format::User => 0x00,
            Format::Float32 => 0x01,
            Format::Int32 => 0x02,
            Format::Int24 => 0x03,
            Format::Int16 => 0x04,
            Format::Aes3_32 => 0x05,
        }
    }

    /// The value a wire code stands for, if it stands for one.
    pub open spec fn from_code(code: u8) -> Option<Format> {
        match code {
            0x00 => Some(Format::User),
            0x01 => Some(Format::Float32),
            0x02 => Some(Format::Int32),
            0x03 => Some(Format::Int24),
            0x04 => Some(Format::Int16),
            0x05 => Some(Format::Aes3_32),
            _ => None,
        }
    }

    /// Decoding of a wire code: the value it stands for, or
    /// [`Error::InvalidValue`] naming the code.
    pub open spec fn decode(code: u8) -> Result<Format> {
        match Format::from_code(code) {
            Some(v) => Ok(v),
            None => Err(Error::InvalidValue { field: "AAF format", value: code as u64 }),
        }
    }

    /// The wire code of this value.
    pub fn as_u8(self) -> (code: u8)
        ensures
            code == self.code(),
    {
        match self {
            Format::User => 0x00,
            Format::Float32 => 0x01,
            Format::Int32 => 0x02,
            Format::Int24 => 0x03,
            Format::Int16 => 0x04,
            Format::Aes3_32 => 0x05,
        }
    }

    /// Decodes a wire code; fails with [`Error::InvalidValue`] on a code with no meaning.
    pub fn from_raw(value: u8) -> (r: Result<Format>)
        ensures
            r == Format::decode(value),
    {
        match value {
            0x00 => Ok(Format::User),
            0x01 => Ok(Format::Float32),
            0x02 => Ok(Format::Int32),
            0x03 => Ok(Format::Int24),
            0x04 => Ok(Format::Int16),
            0x05 => Ok(Format::Aes3_32),
            other => Err(invalid_value("AAF format", other)),
        }
    }

    /// Decoding the wire code of a value gives the value back.
    pub proof fn lemma_decode_code(self)
        ensures
            Format::decode(self.code()) == Ok::<Format, Error>(self),
    {
    }

    /// A code that decodes to a value is that value's code.
    pub proof fn lemma_code_of_decoded(code: u8)
        ensures
            Format::decode(code) matches Ok(v) ==> v.code() == code,
    {
    }

    /// Every value goes on the wire as its code in the AAF format codes of IEEE Std 1722.
    pub proof fn lemma_wire_codes()
        ensures
            Format::User.code() == 0x00,
            Format::Float32.code() == 0x01,
            Format::Int32.code() == 0x02,
            Format::Int24.code() == 0x03,
            Format::Int16.code() == 0x04,
            Format::Aes3_32.code() == 0x05,
    {
    }
}

/// Nominal sample rate (`nsr` field).
#[derive(Debug, Clone, Copy, PartialEq, Eq, Structural)]
pub enum SampleRate {
    User,
    Hz8000,
    Hz16000,
    Hz32000,
    Hz44100,
    Hz48000,
    Hz88200,
    Hz96000,
    Hz176400,
    Hz192000,
    Hz24000,
}

impl SampleRate {
    /// The code that stands for this value on the wire.
    pub open spec fn code(self) -> u8 {
        match self {
            SampleRate::User => 0x00,
            SampleRate::Hz8000 => 0x01,
            SampleRate::Hz16000 => 0x02,
            SampleRate::Hz32000 => 0x03,
            SampleRate::Hz44100 => 0x04,
            SampleRate::Hz48000 => 0x05,
            SampleRate::Hz88200 => 0x06,
            SampleRate::Hz96000 => 0x07,
            SampleRate::Hz176400 => 0x08,
            SampleRate::Hz192000 => 0x09,
            SampleRate::Hz24000 => 0x0A,
        }
    }

    /// The value a wire code stands for, if it stands for one.
    pub open spec fn from_code(code: u8) -> Option<SampleRate> {
        match code {
            0x00 => Some(SampleRate::User),
            0x01 => Some(SampleRate::Hz8000),
            0x02 => Some(SampleRate::Hz16000),
            0x03 => Some(SampleRate::Hz32000),
            0x04 => Some(SampleRate::Hz44100),
            0x05 => Some(SampleRate::Hz48000),
            0x06 => Some(SampleRate::Hz88200),
            0x07 => Some(SampleRate::Hz96000),
            0x08 => Some(SampleRate::Hz176400),
            0x09 => Some(SampleRate::Hz192000),
            0x0A => Some(SampleRate::Hz24000),
            _ => None,
        }
    }

    /// Decoding of a wire code: the value it stands for, or
    /// [`Error::InvalidValue`] naming the code.
    pub open spec fn decode(code: u8) -> Result<SampleRate> {
        match SampleRate::from_code(code) {
            Some(v) => Ok(v),
            None => Err(Error::InvalidValue { field: "AAF NSR", value: code as u64 }),
        }
    }

    /// The wire code of this value.
    pub fn as_u8(self) -> (code: u8)
        ensures
            code == self.code(),
    {
        match self {
            SampleRate::User => 0x00,
            SampleRate::Hz8000 => 0x01,
            SampleRate::Hz16000 => 0x02,
            SampleRate::Hz32000 => 0x03,
            SampleRate::Hz44100 => 0x04,
            SampleRate::Hz48000 => 0x05,
            SampleRate::Hz88200 => 0x06,
            SampleRate::Hz96000 => 0x07,
            SampleRate::Hz176400 => 0x08,
            SampleRate::Hz192000 => 0x09,
            SampleRate::Hz24000 => 0x0A,
        }
    }

    /// Decodes a wire code; fails with [`Error::InvalidValue`] on a code with no meaning.
    pub fn from_raw(value: u8) -> (r: Result<SampleRate>)
        ensures
            r == SampleRate::decode(value),
    {
        match value {
            0x00 => Ok(SampleRate::User),
            0x01 => Ok(SampleRate::Hz8000),
            0x02 => Ok(SampleRate::Hz16000),
            0x03 => Ok(SampleRate::Hz32000),
            0x04 => Ok(SampleRate::Hz44100),
            0x05 => Ok(SampleRate::Hz48000),
            0x06 => Ok(SampleRate::Hz88200),
            0x07 => Ok(SampleRate::Hz96000),
            0x08 => Ok(SampleRate::Hz176400),
            0x09 => Ok(SampleRate::Hz192000),
            0x0A => Ok(SampleRate::Hz24000),
            other => Err(invalid_value("AAF NSR", other)),
        }
    }

    /// Decoding the wire code of a value gives the value back.
    pub proof fn lemma_decode_code(self)
        ensures
            SampleRate::decode(self.code()) == Ok::<SampleRate, Error>(self),
    {
    }

    /// A code that decodes to a value is that value's code.
    pub proof fn lemma_code_of_decoded(code: u8)
        ensures
            SampleRate::decode(code) matches Ok(v) ==> v.code() == code,
    {
    }

    /// Every value goes on the wire as its code in the AAF nominal sample rate (`nsr`) codes of IEEE Std 1722.
    pub proof fn lemma_wire_codes()
        ensures
            SampleRate::User.code() == 0x00,
            SampleRate::Hz8000.code() == 0x01,
            SampleRate::Hz16000.code() == 0x02,
            SampleRate::Hz32000.code() == 0x03,
            SampleRate::Hz44100.code() == 0x04,
            SampleRate::Hz48000.code() == 0x05,
            SampleRate::Hz88200.code() == 0x06,
            SampleRate::Hz96000.code() == 0x07,
            SampleRate::Hz176400.code() == 0x08,
            SampleRate::Hz192000.code() == 0x09,
            SampleRate::Hz24000.code() == 0x0A,
    {
    }

    /// The sampling rate a value names, in hertz; zero for the user-defined
    /// rate.
    pub open spec fn hz(self) -> nat {
        match self {
            SampleRate::User => 0,
            SampleRate::Hz8000 => 8000,
            SampleRate::Hz16000 => 16000,
            SampleRate::Hz32000 => 32000,
            SampleRate::Hz44100 => 44100,
            SampleRate::Hz48000 => 48000,
            SampleRate::Hz88200 => 88200,
            SampleRate::Hz96000 => 96000,
            SampleRate::Hz176400 => 176400,
            SampleRate::Hz192000 => 192000,
            SampleRate::Hz24000 => 24000,
        }
    }

    /// Codes 1 to 9 name the fixed rates from 8 kHz to 192 kHz in increasing
    /// order of rate; code 0 is the user-defined rate, code 10 is 24 kHz, and
    /// no code above 10 names a rate.
    pub proof fn lemma_codes_order_rates(a: SampleRate, b: SampleRate, code: u8)
        ensures
            (a.code() == 0) == (a == SampleRate::User),
            (a.code() == 10) == (a.hz() == 24000),
            1 <= a.code() && a.code() < b.code() && b.code() <= 9 ==> a.hz() < b.hz(),
            SampleRate::decode(code) is Ok <==> code <= 10,
    {
    }
}

/// Size of the AAF PCM stream header in bytes.
pub const HEADER_LEN: usize = 24;

/// An AAF PDU carrying PCM audio.
pub struct Pcm {
    bytes: Vec<u8>,
}

impl View for Pcm {
    type V = Seq<u8>;

    closed spec fn view(&self) -> Seq<u8> {
        self.bytes@
    }
}

impl Pcm {
    /// The buffer holds at least a whole header.
    pub open spec fn wf(&self) -> bool {
        self@.len() >= HEADER_LEN
    }

    /// The header a talker starts from: every header byte cleared, the
    /// subtype set to Aaf and the `sv` (stream id valid) bit set.
    pub open spec fn initial(buf: Seq<u8>) -> Seq<u8> {
        fresh_stream_header(buf, HEADER_LEN as int, Subtype::Aaf.code() as nat)
    }

    /// An initialized PCM header carries the AAF subtype code 0x02.
    pub proof fn lemma_initial_subtype(buf: Seq<u8>)
        requires
            buf.len() >= HEADER_LEN,
        ensures
            field_value(Self::initial(buf), 0, 8) == 0x02,
            Subtype::decode(field_value(Self::initial(buf), 0, 8) as u8) == Ok::<Subtype, Error>(Subtype::Aaf),
    {
        Subtype::lemma_wire_codes();
        lemma_fresh_stream_header(buf, HEADER_LEN as int, Subtype::Aaf.code() as nat);
    }

    /// Setting a nominal sample rate and reading it back gives it back, in
    /// any buffer; on the wire 44.1 kHz is code 4 and 48 kHz is code 5, and a
    /// header carrying code 4 or 5 reads as 44.1 kHz or 48 kHz.
    pub proof fn lemma_sample_rate_on_wire(bytes: Seq<u8>, rate: SampleRate)
        requires
            bytes.len() >= HEADER_LEN,
        ensures
            SampleRate::decode(field_value(with_field(bytes, 136, 4, rate.code() as nat), 136, 4) as u8)
                == Ok::<SampleRate, Error>(rate),
            field_value(with_field(bytes, 136, 4, rate.code() as nat), 136, 4) == rate.code(),
            rate == SampleRate::Hz44100 ==> field_value(with_field(bytes, 136, 4, rate.code() as nat), 136, 4) == 4,
            rate == SampleRate::Hz48000 ==> field_value(with_field(bytes, 136, 4, rate.code() as nat), 136, 4) == 5,
            field_value(bytes, 136, 4) == 4 ==> SampleRate::decode(field_value(bytes, 136, 4) as u8)
                == Ok::<SampleRate, Error>(SampleRate::Hz44100),
            field_value(bytes, 136, 4) == 5 ==> SampleRate::decode(field_value(bytes, 136, 4) as u8)
                == Ok::<SampleRate, Error>(SampleRate::Hz48000),
    {
        SampleRate::lemma_wire_codes();
        vstd::arithmetic::power2::lemma2_to64();
        lemma_get_after_set(bytes, 136, 4, rate.code() as nat);
        rate.lemma_decode_code();
    }

    /// Wraps `buf`; fails with [`Error::BufferTooSmall`] when it cannot hold
    /// a whole header.
    pub fn new(buf: Vec<u8>) -> (r: Result<Self>)
        ensures
            r is Ok <==> buf.len() >= HEADER_LEN,
            r matches Ok(p) ==> p@ == buf@,
            r matches Err(e) ==> e == (Error::BufferTooSmall { required: HEADER_LEN, actual: buf.len() }),
    {
        match check_header_room(buf.len(), HEADER_LEN) {
            Ok(()) => Ok(Pcm { bytes: buf }),
            Err(e) => Err(e),
        }
    }

    /// Wraps `buf` and writes a fresh header into it, as [`Self::initial`]
    /// describes. Use on the talker side.
    pub fn initialized(buf: Vec<u8>) -> (r: Result<Self>)
        ensures
            r is Ok <==> buf.len() >= HEADER_LEN,
            r matches Ok(p) ==> p@ == Self::initial(buf@),
            r matches Err(e) ==> e == (Error::BufferTooSmall { required: HEADER_LEN, actual: buf.len() }),
    {
        match Self::new(buf) {
            Ok(mut pdu) => {
                start_stream_header(&mut pdu.bytes, HEADER_LEN, Subtype::Aaf.as_u8());
                Ok(pdu)
            },
            Err(e) => Err(e),
        }
    }

    /// The whole buffer.
    pub fn as_bytes(&self) -> (bytes: &[u8])
        ensures
            bytes@ == self@,
    {
        self.bytes.as_slice()
    }

    /// Gives the buffer back.
    pub fn into_inner(self) -> (bytes: Vec<u8>)
        ensures
            bytes@ == self@,
    {
        self.bytes
    }

    /// The whole buffer, for writing.
    pub fn as_bytes_mut(&mut self) -> (bytes: &mut [u8])
        ensures
            bytes@ == old(self)@,
            final(self)@ == final(bytes)@,
    {
        self.bytes.as_mut_slice()
    }

    pub fn subtype(&self) -> (r: u8)
        requires
            self.wf(),
        ensures
            r as nat == field_value(self@, 0, 8),
    {
        read_u8(&self.bytes, 0, 0, 8)
    }

    pub fn version(&self) -> (r: u8)
        requires
            self.wf(),
        ensures
            r as nat == field_value(self@, 9, 3),
    {
        read_u8(&self.bytes, 0, 9, 3)
    }

    pub fn sequence_num(&self) -> (r: u8)
        requires
            self.wf(),
        ensures
            r as nat == field_value(self@, 16, 8),
    {
        read_u8(&self.bytes, 0, 16, 8)
    }

    pub fn stream_id(&self) -> (r: u64)
        requires
            self.wf(),
        ensures
            r as nat == field_value(self@, 32, 64),
    {
        read_bits(&self.bytes, 1, 0, 64)
    }

    pub fn avtp_timestamp(&self) -> (r: u32)
        requires
            self.wf(),
        ensures
            r as nat == field_value(self@, 96, 32),
    {
        read_u32(&self.bytes, 3, 0, 32)
    }

    pub fn format(&self) -> (r: Result<Format>)
        requires
            self.wf(),
        ensures
            r == Format::decode(field_value(self@, 128, 8) as u8),
    {
        Format::from_raw(read_u8(&self.bytes, 4, 0, 8))
    }

    pub fn sample_rate(&self) -> (r: Result<SampleRate>)
        requires
            self.wf(),
        ensures
            r == SampleRate::decode(field_value(self@, 136, 4) as u8),
    {
        SampleRate::from_raw(read_u8(&self.bytes, 4, 8, 4))
    }

    pub fn channels_per_frame(&self) -> (r: u16)
        requires
            self.wf(),
        ensures
            r as nat == field_value(self@, 142, 10),
    {
        read_u16(&self.bytes, 4, 14, 10)
    }

    pub fn bit_depth(&self) -> (r: u8)
        requires
            self.wf(),
        ensures
            r as nat == field_value(self@, 152, 8),
    {
        read_u8(&self.bytes, 4, 24, 8)
    }

    pub fn stream_data_length(&self) -> (r: u16)
        requires
            self.wf(),
        ensures
            r as nat == field_value(self@, 160, 16),
    {
        read_u16(&self.bytes, 5, 0, 16)
    }

    pub fn evt(&self) -> (r: u8)
        requires
            self.wf(),
        ensures
            r as nat == field_value(self@, 180, 4),
    {
        read_u8(&self.bytes, 5, 20, 4)
    }

    /// `sv`: `stream_id` carries a meaningful value.
    pub fn is_stream_id_valid(&self) -> (r: bool)
        requires
            self.wf(),
        ensures
            r == (field_value(self@, 8, 1) == 1),
    {
        read_flag(&self.bytes, 0, 8)
    }

    /// `mr`: the media clock has been reset since the last PDU.
    pub fn is_media_reset(&self) -> (r: bool)
        requires
            self.wf(),
        ensures
            r == (field_value(self@, 12, 1) == 1),
    {
        read_flag(&self.bytes, 0, 12)
    }

    /// `tv`: `avtp_timestamp` carries a meaningful value.
    pub fn is_timestamp_valid(&self) -> (r: bool)
        requires
            self.wf(),
        ensures
            r == (field_value(self@, 15, 1) == 1),
    {
        read_flag(&self.bytes, 0, 15)
    }

    /// `tu`: the talker is uncertain about the timestamp.
    pub fn is_timestamp_uncertain(&self) -> (r: bool)
        requires
            self.wf(),
        ensures
            r == (field_value(self@, 31, 1) == 1),
    {
        read_flag(&self.bytes, 0, 31)
    }

    /// `sp`: sparse timestamping (only some PDUs carry valid timestamps).
    pub fn is_sparse_timestamp(&self) -> (r: bool)
        requires
            self.wf(),
        ensures
            r == (field_value(self@, 179, 1) == 1),
    {
        read_flag(&self.bytes, 5, 19)
    }

    pub fn set_version(&mut self, value: u8)
        requires
            old(self).wf(),
        ensures
            final(self)@ == with_field(old(self)@, 9, 3, value as nat),
    {
        write_bits(&mut self.bytes, 0, 9, 3, value as u64);
    }

    pub fn set_sequence_num(&mut self, value: u8)
        requires
            old(self).wf(),
        ensures
            final(self)@ == with_field(old(self)@, 16, 8, value as nat),
    {
        write_bits(&mut self.bytes, 0, 16, 8, value as u64);
    }

    pub fn set_stream_id(&mut self, value: u64)
        requires
            old(self).wf(),
        ensures
            final(self)@ == with_field(old(self)@, 32, 64, value as nat),
    {
        write_bits(&mut self.bytes, 1, 0, 64, value as u64);
    }

    pub fn set_avtp_timestamp(&mut self, value: u32)
        requires
            old(self).wf(),
        ensures
            final(self)@ == with_field(old(self)@, 96, 32, value as nat),
    {
        write_bits(&mut self.bytes, 3, 0, 32, value as u64);
    }

    pub fn set_format(&mut self, value: Format)
        requires
            old(self).wf(),
        ensures
            final(self)@ == with_field(old(self)@, 128, 8, value.code() as nat),
    {
        write_bits(&mut self.bytes, 4, 0, 8, value.as_u8() as u64);
    }

    pub fn set_sample_rate(&mut self, value: SampleRate)
        requires
            old(self).wf(),
        ensures
            final(self)@ == with_field(old(self)@, 136, 4, value.code() as nat),
    {
        write_bits(&mut self.bytes, 4, 8, 4, value.as_u8() as u64);
    }

    pub fn set_channels_per_frame(&mut self, value: u16)
        requires
            old(self).wf(),
        ensures
            final(self)@ == with_field(old(self)@, 142, 10, value as nat),
    {
        write_bits(&mut self.bytes, 4, 14, 10, value as u64);
    }

    pub fn set_bit_depth(&mut self, value: u8)
        requires
            old(self).wf(),
        ensures
            final(self)@ == with_field(old(self)@, 152, 8, value as nat),
    {
        write_bits(&mut self.bytes, 4, 24, 8, value as u64);
    }

    pub fn set_stream_data_length(&mut self, value: u16)
        requires
            old(self).wf(),
        ensures
            final(self)@ == with_field(old(self)@, 160, 16, value as nat),
    {
        write_bits(&mut self.bytes, 5, 0, 16, value as u64);
    }

    pub fn set_evt(&mut self, value: u8)
        requires
            old(self).wf(),
        ensures
            final(self)@ == with_field(old(self)@, 180, 4, value as nat),
    {
        write_bits(&mut self.bytes, 5, 20, 4, value as u64);
    }

    pub fn set_stream_id_valid(&mut self, value: bool)
        requires
            old(self).wf(),
        ensures
            final(self)@ == with_field(old(self)@, 8, 1, flag_value(value)),
    {
        write_flag(&mut self.bytes, 0, 8, value);
    }

    pub fn set_media_reset(&mut self, value: bool)
        requires
            old(self).wf(),
        ensures
            final(self)@ == with_field(old(self)@, 12, 1, flag_value(value)),
    {
        write_flag(&mut self.bytes, 0, 12, value);
    }

    pub fn set_timestamp_valid(&mut self, value: bool)
        requires
            old(self).wf(),
        ensures
            final(self)@ == with_field(old(self)@, 15, 1, flag_value(value)),
    {
        write_flag(&mut self.bytes, 0, 15, value);
    }

    pub fn set_timestamp_uncertain(&mut self, value: bool)
        requires
            old(self).wf(),
        ensures
            final(self)@ == with_field(old(self)@, 31, 1, flag_value(value)),
    {
        write_flag(&mut self.bytes, 0, 31, value);
    }

    pub fn set_sparse_timestamp(&mut self, value: bool)
        requires
            old(self).wf(),
        ensures
            final(self)@ == with_field(old(self)@, 179, 1, flag_value(value)),
    {
        write_flag(&mut self.bytes, 5, 19, value);
    }
}

} // verus!
