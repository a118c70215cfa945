//! AVTP Raw Video Format (RVF), per IEEE Std 1722-2016.
use vstd::prelude::*;
use crate::common::Subtype;
use crate::error::{Error, Result, invalid_value};
use crate::field::{field_value, with_field, flag_value, read_bits, read_u8, read_u16, read_u32, read_flag, write_bits, write_flag};
use crate::pdu::{check_header_room, fresh_stream_header, start_stream_header, lemma_fresh_stream_header};

verus! {

broadcast use crate::field::lemma_with_field_len;

/// Pixel depth in bits per sample.
#[derive(Debug, Clone, Copy, PartialEq, Eq, Structural)]
pub enum PixelDepth {
    Bits8,
    Bits10,
    Bits12,
    Bits16,
    User,
}

impl PixelDepth {
    /// The code that stands for this value on the wire.
    pub open spec fn code(self) -> u8 {
        match self {
            PixelDepth::Bits8 => 0x01,
            PixelDepth::Bits10 => 0x02,
            PixelDepth::Bits12 => 0x03,
            PixelDepth::Bits16 => 0x04,
            PixelDepth::User => 0x0F,
        }
    }

    /// The value a wire code stands for, if it stands for one.
    pub open spec fn from_code(code: u8) -> Option<PixelDepth> {
        match code {
            0x01 => Some(PixelDepth::Bits8),
            0x02 => Some(PixelDepth::Bits10),
            0x03 => Some(PixelDepth::Bits12),
            0x04 => Some(PixelDepth::Bits16),
            0x0F => Some(PixelDepth::User),
            _ => None,
        }
    }

    /// Decoding of a wire code: the value it stands for, or
    /// [`Error::InvalidValue`] naming the code.
    pub open spec fn decode(code: u8) -> Result<PixelDepth> {
        match PixelDepth::from_code(code) {
            Some(v) => Ok(v),
            None => Err(Error::InvalidValue { field: "RVF pixel depth", value: code as u64 }),
        }
    }

    /// The wire code of this value.
    pub fn as_u8(self) -> (code: u8)
        ensures
            code == self.code(),
    {
        match self {
            PixelDepth::Bits8 => 0x01,
            PixelDepth::Bits10 => 0x02,
            PixelDepth::Bits12 => 0x03,
            PixelDepth::Bits16 => 0x04,
            PixelDepth::User => 0x0F,
        }
    }

    /// Decodes a wire code; fails with [`Error::InvalidValue`] on a code with no meaning.
    pub fn from_raw(value: u8) -> (r: Result<PixelDepth>)
        ensures
            r == PixelDepth::decode(value),
    {
        match value {
            0x01 => Ok(PixelDepth::Bits8),
            0x02 => Ok(PixelDepth::Bits10),
            0x03 => Ok(PixelDepth::Bits12),
            0x04 => Ok(PixelDepth::Bits16),
            0x0F => Ok(PixelDepth::User),
            other => Err(invalid_value("RVF pixel depth", other)),
        }
    }

    /// Decoding the wire code of a value gives the value back.
    pub proof fn lemma_decode_code(self)
        ensures
            PixelDepth::decode(self.code()) == Ok::<PixelDepth, Error>(self),
    {
    }

    /// A code that decodes to a value is that value's code.
    pub proof fn lemma_code_of_decoded(code: u8)
        ensures
            PixelDepth::decode(code) matches Ok(v) ==> v.code() == code,
    {
    }

    /// Every value goes on the wire as its code in the RVF pixel depth codes of IEEE Std 1722.
    pub proof fn lemma_wire_codes()
        ensures
            PixelDepth::Bits8.code() == 0x01,
            PixelDepth::Bits10.code() == 0x02,
            PixelDepth::Bits12.code() == 0x03,
            PixelDepth::Bits16.code() == 0x04,
            PixelDepth::User.code() == 0x0F,
    {
    }
}

/// Pixel layout (chroma subsampling or Bayer pattern).
#[derive(Debug, Clone, Copy, PartialEq, Eq, Structural)]
pub enum PixelFormat {
    Mono,
    Yuv411,
    Yuv420,
    Yuv422,
    Yuv444,
    Yuv4224,
    Yuv4444,
    BayerGrbg,
    BayerRggb,
    BayerBggr,
    BayerGbrg,
    User,
}

impl PixelFormat {
    /// The code that stands for this value on the wire.
    pub open spec fn code(self) -> u8 {
        match self {
            PixelFormat::Mono => 0x00,
            PixelFormat::Yuv411 => 0x01,
            PixelFormat::Yuv420 => 0x02,
            PixelFormat::Yuv422 => 0x03,
            PixelFormat::Yuv444 => 0x04,
            PixelFormat::Yuv4224 => 0x06,
            PixelFormat::Yuv4444 => 0x07,
            PixelFormat::BayerGrbg => 0x08,
            PixelFormat::BayerRggb => 0x09,
            PixelFormat::BayerBggr => 0x0A,
            PixelFormat::BayerGbrg => 0x0B,
            PixelFormat::User => 0x0F,
        }
    }

    /// The value a wire code stands for, if it stands for one.
    pub open spec fn from_code(code: u8) -> Option<PixelFormat> {
        match code {
            0x00 => Some(PixelFormat::Mono),
            0x01 => Some(PixelFormat::Yuv411),
            0x02 => Some(PixelFormat::Yuv420),
            0x03 => Some(PixelFormat::Yuv422),
            0x04 => Some(PixelFormat::Yuv444),
            0x06 => Some(PixelFormat::Yuv4224),
            0x07 => Some(PixelFormat::Yuv4444),
            0x08 => Some(PixelFormat::BayerGrbg),
            0x09 => Some(PixelFormat::BayerRggb),
            0x0A => Some(PixelFormat::BayerBggr),
            0x0B => Some(PixelFormat::BayerGbrg),
            0x0F => Some(PixelFormat::User),
            _ => None,
        }
    }

    /// Decoding of a wire code: the value it stands for, or
    /// [`Error::InvalidValue`] naming the code.
    pub open spec fn decode(code: u8) -> Result<PixelFormat> {
        match PixelFormat::from_code(code) {
            Some(v) => Ok(v),
            None => Err(Error::InvalidValue { field: "RVF pixel format", value: code as u64 }),
        }
    }

    /// The wire code of this value.
    pub fn as_u8(self) -> (code: u8)
        ensures
            code == self.code(),
    {
        match self {
            PixelFormat::Mono => 0x00,
            PixelFormat::Yuv411 => 0x01,
            PixelFormat::Yuv420 => 0x02,
            PixelFormat::Yuv422 => 0x03,
            PixelFormat::Yuv444 => 0x04,
            PixelFormat::Yuv4224 => 0x06,
            PixelFormat::Yuv4444 => 0x07,
            PixelFormat::BayerGrbg => 0x08,
            PixelFormat::BayerRggb => 0x09,
            PixelFormat::BayerBggr => 0x0A,
            PixelFormat::BayerGbrg => 0x0B,
            PixelFormat::User => 0x0F,
        }
    }

    /// Decodes a wire code; fails with [`Error::InvalidValue`] on a code with no meaning.
    pub fn from_raw(value: u8) -> (r: Result<PixelFormat>)
        ensures
            r == PixelFormat::decode(value),
    {
        match value {
            0x00 => Ok(PixelFormat::Mono),
            0x01 => Ok(PixelFormat::Yuv411),
            0x02 => Ok(PixelFormat::Yuv420),
            0x03 => Ok(PixelFormat::Yuv422),
            0x04 => Ok(PixelFormat::Yuv444),
            0x06 => Ok(PixelFormat::Yuv4224),
            0x07 => Ok(PixelFormat::Yuv4444),
            0x08 => Ok(PixelFormat::BayerGrbg),
            0x09 => Ok(PixelFormat::BayerRggb),
            0x0A => Ok(PixelFormat::BayerBggr),
            0x0B => Ok(PixelFormat::BayerGbrg),
            0x0F => Ok(PixelFormat::User),
            other => Err(invalid_value("RVF pixel format", other)),
        }
    }

    /// Decoding the wire code of a value gives the value back.
    pub proof fn lemma_decode_code(self)
        ensures
            PixelFormat::decode(self.code()) == Ok::<PixelFormat, Error>(self),
    {
    }

    /// A code that decodes to a value is that value's code.
    pub proof fn lemma_code_of_decoded(code: u8)
        ensures
            PixelFormat::decode(code) matches Ok(v) ==> v.code() == code,
    {
    }

    /// Every value goes on the wire as its code in the RVF pixel format codes of IEEE Std 1722.
    pub proof fn lemma_wire_codes()
        ensures
            PixelFormat::Mono.code() == 0x00,
            PixelFormat::Yuv411.code() == 0x01,
            PixelFormat::Yuv420.code() == 0x02,
            PixelFormat::Yuv422.code() == 0x03,
            PixelFormat::Yuv444.code() == 0x04,
            PixelFormat::Yuv4224.code() == 0x06,
            PixelFormat::Yuv4444.code() == 0x07,
            PixelFormat::BayerGrbg.code() == 0x08,
            PixelFormat::BayerRggb.code() == 0x09,
            PixelFormat::BayerBggr.code() == 0x0A,
            PixelFormat::BayerGbrg.code() == 0x0B,
            PixelFormat::User.code() == 0x0F,
    {
    }
}

/// Frame rate code. Codes are spec-assigned and do not encode the numeric
/// rate; convert with [`Self::fps`] when needed.
#[derive(Debug, Clone, Copy, PartialEq, Eq, Structural)]
pub enum FrameRate {
    Fps1,
    Fps2,
    Fps5,
    Fps10,
    Fps15,
    Fps20,
    Fps24,
    Fps25,
    Fps30,
    Fps48,
    Fps50,
    Fps60,
    Fps72,
    Fps85,
    Fps100,
    Fps120,
    Fps150,
    Fps200,
    Fps240,
    Fps300,
    User,
}

impl FrameRate {
    /// The code that stands for this value on the wire.
    pub open spec fn code(self) -> u8 {
        match self {
            FrameRate::Fps1 => 0x01,
            FrameRate::Fps2 => 0x02,
            FrameRate::Fps5 => 0x03,
            FrameRate::Fps10 => 0x10,
            FrameRate::Fps15 => 0x11,
            FrameRate::Fps20 => 0x12,
            FrameRate::Fps24 => 0x13,
            FrameRate::Fps25 => 0x14,
            FrameRate::Fps30 => 0x15,
            FrameRate::Fps48 => 0x16,
            FrameRate::Fps50 => 0x17,
            FrameRate::Fps60 => 0x18,
            FrameRate::Fps72 => 0x19,
            FrameRate::Fps85 => 0x1A,
            FrameRate::Fps100 => 0x30,
            FrameRate::Fps120 => 0x31,
            FrameRate::Fps150 => 0x32,
            FrameRate::Fps200 => 0x33,
            FrameRate::Fps240 => 0x34,
            FrameRate::Fps300 => 0x35,
            FrameRate::User => 0x0F,
        }
    }

    /// The value a wire code stands for, if it stands for one.
    pub open spec fn from_code(code: u8) -> Option<FrameRate> {
        match code {
            0x01 => Some(FrameRate::Fps1),
            0x02 => Some(FrameRate::Fps2),
            0x03 => Some(FrameRate::Fps5),
            0x10 => Some(FrameRate::Fps10),
            0x11 => Some(FrameRate::Fps15),
            0x12 => Some(FrameRate::Fps20),
            0x13 => Some(FrameRate::Fps24),
            0x14 => Some(FrameRate::Fps25),
            0x15 => Some(FrameRate::Fps30),
            0x16 => Some(FrameRate::Fps48),
            0x17 => Some(FrameRate::Fps50),
            0x18 => Some(FrameRate::Fps60),
            0x19 => Some(FrameRate::Fps72),
            0x1A => Some(FrameRate::Fps85),
            0x30 => Some(FrameRate::Fps100),
            0x31 => Some(FrameRate::Fps120),
            0x32 => Some(FrameRate::Fps150),
            0x33 => Some(FrameRate::Fps200),
            0x34 => Some(FrameRate::Fps240),
            0x35 => Some(FrameRate::Fps300),
            0x0F => Some(FrameRate::User),
            _ => None,
        }
    }

    /// Decoding of a wire code: the value it stands for, or
    /// [`Error::InvalidValue`] naming the code.
    pub open spec fn decode(code: u8) -> Result<FrameRate> {
        match FrameRate::from_code(code) {
            Some(v) => Ok(v),
            None => Err(Error::InvalidValue { field: "RVF frame rate", value: code as u64 }),
        }
    }

    /// The wire code of this value.
    pub fn as_u8(self) -> (code: u8)
        ensures
            code == self.code(),
    {
        match self {
            FrameRate::Fps1 => 0x01,
            FrameRate::Fps2 => 0x02,
            FrameRate::Fps5 => 0x03,
            FrameRate::Fps10 => 0x10,
            FrameRate::Fps15 => 0x11,
            FrameRate::Fps20 => 0x12,
            FrameRate::Fps24 => 0x13,
            FrameRate::Fps25 => 0x14,
            FrameRate::Fps30 => 0x15,
            FrameRate::Fps48 => 0x16,
            FrameRate::Fps50 => 0x17,
            FrameRate::Fps60 => 0x18,
            FrameRate::Fps72 => 0x19,
            FrameRate::Fps85 => 0x1A,
            FrameRate::Fps100 => 0x30,
            FrameRate::Fps120 => 0x31,
            FrameRate::Fps150 => 0x32,
            FrameRate::Fps200 => 0x33,
            FrameRate::Fps240 => 0x34,
            FrameRate::Fps300 => 0x35,
            FrameRate::User => 0x0F,
        }
    }

    /// Decodes a wire code; fails with [`Error::InvalidValue`] on a code with no meaning.
    pub fn from_raw(value: u8) -> (r: Result<FrameRate>)
        ensures
            r == FrameRate::decode(value),
    {
        match value {
            0x01 => Ok(FrameRate::Fps1),
            0x02 => Ok(FrameRate::Fps2),
            0x03 => Ok(FrameRate::Fps5),
            0x10 => Ok(FrameRate::Fps10),
            0x11 => Ok(FrameRate::Fps15),
            0x12 => Ok(FrameRate::Fps20),
            0x13 => Ok(FrameRate::Fps24),
            0x14 => Ok(FrameRate::Fps25),
            0x15 => Ok(FrameRate::Fps30),
            0x16 => Ok(FrameRate::Fps48),
            0x17 => Ok(FrameRate::Fps50),
            0x18 => Ok(FrameRate::Fps60),
            0x19 => Ok(FrameRate::Fps72),
            0x1A => Ok(FrameRate::Fps85),
            0x30 => Ok(FrameRate::Fps100),
            0x31 => Ok(FrameRate::Fps120),
            0x32 => Ok(FrameRate::Fps150),
            0x33 => Ok(FrameRate::Fps200),
            0x34 => Ok(FrameRate::Fps240),
            0x35 => Ok(FrameRate::Fps300),
            0x0F => Ok(FrameRate::User),
            other => Err(invalid_value("RVF frame rate", other)),
        }
    }

    /// Nominal frames per second, or `None` for the user-defined code.
    pub open spec fn nominal_fps(self) -> Option<u16> {
        match self {
            FrameRate::Fps1 => Some(1),
            FrameRate::Fps2 => Some(2),
            FrameRate::Fps5 => Some(5),
            FrameRate::Fps10 => Some(10),
            FrameRate::Fps15 => Some(15),
            FrameRate::Fps20 => Some(20),
            FrameRate::Fps24 => Some(24),
            FrameRate::Fps25 => Some(25),
            FrameRate::Fps30 => Some(30),
            FrameRate::Fps48 => Some(48),
            FrameRate::Fps50 => Some(50),
            FrameRate::Fps60 => Some(60),
            FrameRate::Fps72 => Some(72),
            FrameRate::Fps85 => Some(85),
            FrameRate::Fps100 => Some(100),
            FrameRate::Fps120 => Some(120),
            FrameRate::Fps150 => Some(150),
            FrameRate::Fps200 => Some(200),
            FrameRate::Fps240 => Some(240),
            FrameRate::Fps300 => Some(300),
            FrameRate::User => None,
        }
    }

    /// Nominal frames per second, or `None` for the user-defined code.
    pub fn fps(self) -> (r: Option<u16>)
        ensures
            r == self.nominal_fps(),
    {
        match self {
            FrameRate::Fps1 => Some(1),
            FrameRate::Fps2 => Some(2),
            FrameRate::Fps5 => Some(5),
            FrameRate::Fps10 => Some(10),
            FrameRate::Fps15 => Some(15),
            FrameRate::Fps20 => Some(20),
            FrameRate::Fps24 => Some(24),
            FrameRate::Fps25 => Some(25),
            FrameRate::Fps30 => Some(30),
            FrameRate::Fps48 => Some(48),
            FrameRate::Fps50 => Some(50),
            FrameRate::Fps60 => Some(60),
            FrameRate::Fps72 => Some(72),
            FrameRate::Fps85 => Some(85),
            FrameRate::Fps100 => Some(100),
            FrameRate::Fps120 => Some(120),
            FrameRate::Fps150 => Some(150),
            FrameRate::Fps200 => Some(200),
            FrameRate::Fps240 => Some(240),
            FrameRate::Fps300 => Some(300),
            FrameRate::User => None,
        }
    }

    /// Decoding the wire code of a value gives the value back.
    pub proof fn lemma_decode_code(self)
        ensures
            FrameRate::decode(self.code()) == Ok::<FrameRate, Error>(self),
    {
    }

    /// A code that decodes to a value is that value's code.
    pub proof fn lemma_code_of_decoded(code: u8)
        ensures
            FrameRate::decode(code) matches Ok(v) ==> v.code() == code,
    {
    }

    /// Every value goes on the wire as its code in the RVF frame rate codes of IEEE Std 1722.
    pub proof fn lemma_wire_codes()
        ensures
            FrameRate::Fps1.code() == 0x01,
            FrameRate::Fps2.code() == 0x02,
            FrameRate::Fps5.code() == 0x03,
            FrameRate::Fps10.code() == 0x10,
            FrameRate::Fps15.code() == 0x11,
            FrameRate::Fps20.code() == 0x12,
            FrameRate::Fps24.code() == 0x13,
            FrameRate::Fps25.code() == 0x14,
            FrameRate::Fps30.code() == 0x15,
            FrameRate::Fps48.code() == 0x16,
            FrameRate::Fps50.code() == 0x17,
            FrameRate::Fps60.code() == 0x18,
            FrameRate::Fps72.code() == 0x19,
            FrameRate::Fps85.code() == 0x1A,
            FrameRate::Fps100.code() == 0x30,
            FrameRate::Fps120.code() == 0x31,
            FrameRate::Fps150.code() == 0x32,
            FrameRate::Fps200.code() == 0x33,
            FrameRate::Fps240.code() == 0x34,
            FrameRate::Fps300.code() == 0x35,
            FrameRate::User.code() == 0x0F,
    {
    }

    /// The codes of the fixed frame rates grow with the rate; the
    /// user-defined rate is code 0x0F and has no nominal rate.
    pub proof fn lemma_codes_order_rates(a: FrameRate, b: FrameRate)
        ensures
            (a.code() == 0x0F) == (a == FrameRate::User),
            a.nominal_fps() is None <==> a == FrameRate::User,
            a.nominal_fps() matches Some(x) ==> (b.nominal_fps() matches Some(y) ==> (x < y <==> a.code()
                < b.code())),
    {
    }
}

/// Color space code.
#[derive(Debug, Clone, Copy, PartialEq, Eq, Structural)]
pub enum Colorspace {
    YCbCr,
    Srgb,
    YCgCo,
    Gray,
    Xyz,
    YCm,
    Bt601,
    Bt709,
    ItuBt,
    User,
}

impl Colorspace {
    /// The code that stands for this value on the wire.
    pub open spec fn code(self) -> u8 {
        match self {
            Colorspace::YCbCr => 0x01,
            Colorspace::Srgb => 0x02,
            Colorspace::YCgCo => 0x03,
            Colorspace::Gray => 0x04,
            Colorspace::Xyz => 0x05,
            Colorspace::YCm => 0x06,
            Colorspace::Bt601 => 0x07,
            Colorspace::Bt709 => 0x08,
            Colorspace::ItuBt => 0x09,
            Colorspace::User => 0x0F,
        }
    }

    /// The value a wire code stands for, if it stands for one.
    pub open spec fn from_code(code: u8) -> Option<Colorspace> {
        match code {
            0x01 => Some(Colorspace::YCbCr),
            0x02 => Some(Colorspace::Srgb),
            0x03 => Some(Colorspace::YCgCo),
            0x04 => Some(Colorspace::Gray),
            0x05 => Some(Colorspace::Xyz),
            0x06 => Some(Colorspace::YCm),
            0x07 => Some(Colorspace::Bt601),
            0x08 => Some(Colorspace::Bt709),
            0x09 => Some(Colorspace::ItuBt),
            0x0F => Some(Colorspace::User),
            _ => None,
        }
    }

    /// Decoding of a wire code: the value it stands for, or
    /// [`Error::InvalidValue`] naming the code.
    pub open spec fn decode(code: u8) -> Result<Colorspace> {
        match Colorspace::from_code(code) {
            Some(v) => Ok(v),
            None => Err(Error::InvalidValue { field: "RVF colorspace", value: code as u64 }),
        }
    }

    /// The wire code of this value.
    pub fn as_u8(self) -> (code: u8)
        ensures
            code == self.code(),
    {
        match self {
            Colorspace::YCbCr => 0x01,
            Colorspace::Srgb => 0x02,
            Colorspace::YCgCo => 0x03,
            Colorspace::Gray => 0x04,
            Colorspace::Xyz => 0x05,
            Colorspace::YCm => 0x06,
            Colorspace::Bt601 => 0x07,
            Colorspace::Bt709 => 0x08,
            Colorspace::ItuBt => 0x09,
            Colorspace::User => 0x0F,
        }
    }

    /// Decodes a wire code; fails with [`Error::InvalidValue`] on a code with no meaning.
    pub fn from_raw(value: u8) -> (r: Result<Colorspace>)
        ensures
            r == Colorspace::decode(value),
    {
        match value {
            0x01 => Ok(Colorspace::YCbCr),
            0x02 => Ok(Colorspace::Srgb),
            0x03 => Ok(Colorspace::YCgCo),
            0x04 => Ok(Colorspace::Gray),
            0x05 => Ok(Colorspace::Xyz),
            0x06 => Ok(Colorspace::YCm),
            0x07 => Ok(Colorspace::Bt601),
            0x08 => Ok(Colorspace::Bt709),
            0x09 => Ok(Colorspace::ItuBt),
            0x0F => Ok(Colorspace::User),
            other => Err(invalid_value("RVF colorspace", other)),
        }
    }

    /// Decoding the wire code of a value gives the value back.
    pub proof fn lemma_decode_code(self)
        ensures
            Colorspace::decode(self.code()) == Ok::<Colorspace, Error>(self),
    {
    }

    /// A code that decodes to a value is that value's code.
    pub proof fn lemma_code_of_decoded(code: u8)
        ensures
            Colorspace::decode(code) matches Ok(v) ==> v.code() == code,
    {
    }

    /// Every value goes on the wire as its code in the RVF colorspace codes of IEEE Std 1722.
    pub proof fn lemma_wire_codes()
        ensures
            Colorspace::YCbCr.code() == 0x01,
            Colorspace::Srgb.code() == 0x02,
            Colorspace::YCgCo.code() == 0x03,
            Colorspace::Gray.code() == 0x04,
            Colorspace::Xyz.code() == 0x05,
            Colorspace::YCm.code() == 0x06,
            Colorspace::Bt601.code() == 0x07,
            Colorspace::Bt709.code() == 0x08,
            Colorspace::ItuBt.code() == 0x09,
            Colorspace::User.code() == 0x0F,
    {
    }
}

/// Size of the RVF header in bytes.
pub const HEADER_LEN: usize = 32;

/// A Raw Video Format PDU.
pub struct Rvf {
    bytes: Vec<u8>,
}

impl View for Rvf {
    type V = Seq<u8>;

    closed spec fn view(&self) -> Seq<u8> {
        self.bytes@
    }
}

impl Rvf {
    /// The buffer holds at least a whole header.
    pub open spec fn wf(&self) -> bool {
        self@.len() >= HEADER_LEN
    }

    /// The header a talker starts from: every header byte cleared, the
    /// subtype set to Rvf and the `sv` (stream id valid) bit set.
    pub open spec fn initial(buf: Seq<u8>) -> Seq<u8> {
        fresh_stream_header(buf, HEADER_LEN as int, Subtype::Rvf.code() as nat)
    }

    /// An initialized RVF header carries the RVF subtype code 0x07.
    pub proof fn lemma_initial_subtype(buf: Seq<u8>)
        requires
            buf.len() >= HEADER_LEN,
        ensures
            field_value(Self::initial(buf), 0, 8) == 0x07,
            Subtype::decode(field_value(Self::initial(buf), 0, 8) as u8) == Ok::<Subtype, Error>(Subtype::Rvf),
    {
        Subtype::lemma_wire_codes();
        lemma_fresh_stream_header(buf, HEADER_LEN as int, Subtype::Rvf.code() as nat);
    }

    /// Wraps `buf`; fails with [`Error::BufferTooSmall`] when it cannot hold
    /// a whole header.
    pub fn new(buf: Vec<u8>) -> (r: Result<Self>)
        ensures
            r is Ok <==> buf.len() >= HEADER_LEN,
            r matches Ok(p) ==> p@ == buf@,
            r matches Err(e) ==> e == (Error::BufferTooSmall { required: HEADER_LEN, actual: buf.len() }),
    {
        match check_header_room(buf.len(), HEADER_LEN) {
            Ok(()) => Ok(Rvf { bytes: buf }),
            Err(e) => Err(e),
        }
    }

    /// Wraps `buf` and writes a fresh header into it, as [`Self::initial`]
    /// describes. Use on the talker side.
    pub fn initialized(buf: Vec<u8>) -> (r: Result<Self>)
        ensures
            r is Ok <==> buf.len() >= HEADER_LEN,
            r matches Ok(p) ==> p@ == Self::initial(buf@),
            r matches Err(e) ==> e == (Error::BufferTooSmall { required: HEADER_LEN, actual: buf.len() }),
    {
        match Self::new(buf) {
            Ok(mut pdu) => {
                start_stream_header(&mut pdu.bytes, HEADER_LEN, Subtype::Rvf.as_u8());
                Ok(pdu)
            },
            Err(e) => Err(e),
        }
    }

    /// The whole buffer.
    pub fn as_bytes(&self) -> (bytes: &[u8])
        ensures
            bytes@ == self@,
    {
        self.bytes.as_slice()
    }

    /// Gives the buffer back.
    pub fn into_inner(self) -> (bytes: Vec<u8>)
        ensures
            bytes@ == self@,
    {
        self.bytes
    }

    /// The whole buffer, for writing.
    pub fn as_bytes_mut(&mut self) -> (bytes: &mut [u8])
        ensures
            bytes@ == old(self)@,
            final(self)@ == final(bytes)@,
    {
        self.bytes.as_mut_slice()
    }

    pub fn subtype(&self) -> (r: u8)
        requires
            self.wf(),
        ensures
            r as nat == field_value(self@, 0, 8),
    {
        read_u8(&self.bytes, 0, 0, 8)
    }

    pub fn version(&self) -> (r: u8)
        requires
            self.wf(),
        ensures
            r as nat == field_value(self@, 9, 3),
    {
        read_u8(&self.bytes, 0, 9, 3)
    }

    pub fn sequence_num(&self) -> (r: u8)
        requires
            self.wf(),
        ensures
            r as nat == field_value(self@, 16, 8),
    {
        read_u8(&self.bytes, 0, 16, 8)
    }

    pub fn stream_id(&self) -> (r: u64)
        requires
            self.wf(),
        ensures
            r as nat == field_value(self@, 32, 64),
    {
        read_bits(&self.bytes, 1, 0, 64)
    }

    pub fn avtp_timestamp(&self) -> (r: u32)
        requires
            self.wf(),
        ensures
            r as nat == field_value(self@, 96, 32),
    {
        read_u32(&self.bytes, 3, 0, 32)
    }

    pub fn active_pixels(&self) -> (r: u16)
        requires
            self.wf(),
        ensures
            r as nat == field_value(self@, 128, 16),
    {
        read_u16(&self.bytes, 4, 0, 16)
    }

    pub fn total_lines(&self) -> (r: u16)
        requires
            self.wf(),
        ensures
            r as nat == field_value(self@, 144, 16),
    {
        read_u16(&self.bytes, 4, 16, 16)
    }

    pub fn stream_data_length(&self) -> (r: u16)
        requires
            self.wf(),
        ensures
            r as nat == field_value(self@, 160, 16),
    {
        read_u16(&self.bytes, 5, 0, 16)
    }

    pub fn evt(&self) -> (r: u8)
        requires
            self.wf(),
        ensures
            r as nat == field_value(self@, 180, 4),
    {
        read_u8(&self.bytes, 5, 20, 4)
    }

    pub fn num_lines(&self) -> (r: u8)
        requires
            self.wf(),
        ensures
            r as nat == field_value(self@, 212, 4),
    {
        read_u8(&self.bytes, 6, 20, 4)
    }

    /// Sequence number of the current line within the frame.
    pub fn i_seq_num(&self) -> (r: u8)
        requires
            self.wf(),
        ensures
            r as nat == field_value(self@, 224, 8),
    {
        read_u8(&self.bytes, 7, 0, 8)
    }

    pub fn line_number(&self) -> (r: u16)
        requires
            self.wf(),
        ensures
            r as nat == field_value(self@, 232, 16),
    {
        read_u16(&self.bytes, 7, 8, 16)
    }

    pub fn pixel_depth(&self) -> (r: Result<PixelDepth>)
        requires
            self.wf(),
        ensures
            r == PixelDepth::decode(field_value(self@, 192, 4) as u8),
    {
        PixelDepth::from_raw(read_u8(&self.bytes, 6, 0, 4))
    }

    pub fn pixel_format(&self) -> (r: Result<PixelFormat>)
        requires
            self.wf(),
        ensures
            r == PixelFormat::decode(field_value(self@, 196, 4) as u8),
    {
        PixelFormat::from_raw(read_u8(&self.bytes, 6, 4, 4))
    }

    pub fn frame_rate(&self) -> (r: Result<FrameRate>)
        requires
            self.wf(),
        ensures
            r == FrameRate::decode(field_value(self@, 200, 8) as u8),
    {
        FrameRate::from_raw(read_u8(&self.bytes, 6, 8, 8))
    }

    pub fn colorspace(&self) -> (r: Result<Colorspace>)
        requires
            self.wf(),
        ensures
            r == Colorspace::decode(field_value(self@, 208, 4) as u8),
    {
        Colorspace::from_raw(read_u8(&self.bytes, 6, 16, 4))
    }

    /// `pd` bit; semantics are spec-defined.
    pub fn is_pd(&self) -> (r: bool)
        requires
            self.wf(),
        ensures
            r == (field_value(self@, 184, 1) == 1),
    {
        read_flag(&self.bytes, 5, 24)
    }

    /// `sv`: `stream_id` carries a meaningful value.
    pub fn is_stream_id_valid(&self) -> (r: bool)
        requires
            self.wf(),
        ensures
            r == (field_value(self@, 8, 1) == 1),
    {
        read_flag(&self.bytes, 0, 8)
    }

    /// `mr`: the media clock has been reset since the last PDU.
    pub fn is_media_reset(&self) -> (r: bool)
        requires
            self.wf(),
        ensures
            r == (field_value(self@, 12, 1) == 1),
    {
        read_flag(&self.bytes, 0, 12)
    }

    /// `tv`: `avtp_timestamp` carries a meaningful value.
    pub fn is_timestamp_valid(&self) -> (r: bool)
        requires
            self.wf(),
        ensures
            r == (field_value(self@, 15, 1) == 1),
    {
        read_flag(&self.bytes, 0, 15)
    }

    /// `tu`: the talker is uncertain about the timestamp.
    pub fn is_timestamp_uncertain(&self) -> (r: bool)
        requires
            self.wf(),
        ensures
            r == (field_value(self@, 31, 1) == 1),
    {
        read_flag(&self.bytes, 0, 31)
    }

    /// `ap` bit; semantics are spec-defined (see IEEE Std 1722-2016).
    pub fn is_ap(&self) -> (r: bool)
        requires
            self.wf(),
        ensures
            r == (field_value(self@, 176, 1) == 1),
    {
        read_flag(&self.bytes, 5, 16)
    }

    /// `f` bit; semantics are spec-defined.
    pub fn is_f(&self) -> (r: bool)
        requires
            self.wf(),
        ensures
            r == (field_value(self@, 178, 1) == 1),
    {
        read_flag(&self.bytes, 5, 18)
    }

    /// `ef` bit; semantics are spec-defined.
    pub fn is_ef(&self) -> (r: bool)
        requires
            self.wf(),
        ensures
            r == (field_value(self@, 179, 1) == 1),
    {
        read_flag(&self.bytes, 5, 19)
    }

    /// `i` bit; spec-defined, commonly used to indicate interlaced video.
    pub fn is_i(&self) -> (r: bool)
        requires
            self.wf(),
        ensures
            r == (field_value(self@, 185, 1) == 1),
    {
        read_flag(&self.bytes, 5, 25)
    }

    pub fn set_version(&mut self, value: u8)
        requires
            old(self).wf(),
        ensures
            final(self)@ == with_field(old(self)@, 9, 3, value as nat),
    {
        write_bits(&mut self.bytes, 0, 9, 3, value as u64);
    }

    pub fn set_sequence_num(&mut self, value: u8)
        requires
            old(self).wf(),
        ensures
            final(self)@ == with_field(old(self)@, 16, 8, value as nat),
    {
        write_bits(&mut self.bytes, 0, 16, 8, value as u64);
    }

    pub fn set_stream_id(&mut self, value: u64)
        requires
            old(self).wf(),
        ensures
            final(self)@ == with_field(old(self)@, 32, 64, value as nat),
    {
        write_bits(&mut self.bytes, 1, 0, 64, value as u64);
    }

    pub fn set_avtp_timestamp(&mut self, value: u32)
        requires
            old(self).wf(),
        ensures
            final(self)@ == with_field(old(self)@, 96, 32, value as nat),
    {
        write_bits(&mut self.bytes, 3, 0, 32, value as u64);
    }

    pub fn set_active_pixels(&mut self, value: u16)
        requires
            old(self).wf(),
        ensures
            final(self)@ == with_field(old(self)@, 128, 16, value as nat),
    {
        write_bits(&mut self.bytes, 4, 0, 16, value as u64);
    }

    pub fn set_total_lines(&mut self, value: u16)
        requires
            old(self).wf(),
        ensures
            final(self)@ == with_field(old(self)@, 144, 16, value as nat),
    {
        write_bits(&mut self.bytes, 4, 16, 16, value as u64);
    }

    pub fn set_stream_data_length(&mut self, value: u16)
        requires
            old(self).wf(),
        ensures
            final(self)@ == with_field(old(self)@, 160, 16, value as nat),
    {
        write_bits(&mut self.bytes, 5, 0, 16, value as u64);
    }

    pub fn set_evt(&mut self, value: u8)
        requires
            old(self).wf(),
        ensures
            final(self)@ == with_field(old(self)@, 180, 4, value as nat),
    {
        write_bits(&mut self.bytes, 5, 20, 4, value as u64);
    }

    pub fn set_num_lines(&mut self, value: u8)
        requires
            old(self).wf(),
        ensures
            final(self)@ == with_field(old(self)@, 212, 4, value as nat),
    {
        write_bits(&mut self.bytes, 6, 20, 4, value as u64);
    }

    pub fn set_i_seq_num(&mut self, value: u8)
        requires
            old(self).wf(),
        ensures
            final(self)@ == with_field(old(self)@, 224, 8, value as nat),
    {
        write_bits(&mut self.bytes, 7, 0, 8, value as u64);
    }

    pub fn set_line_number(&mut self, value: u16)
        requires
            old(self).wf(),
        ensures
            final(self)@ == with_field(old(self)@, 232, 16, value as nat),
    {
        write_bits(&mut self.bytes, 7, 8, 16, value as u64);
    }

    pub fn set_pixel_depth(&mut self, value: PixelDepth)
        requires
            old(self).wf(),
        ensures
            final(self)@ == with_field(old(self)@, 192, 4, value.code() as nat),
    {
        write_bits(&mut self.bytes, 6, 0, 4, value.as_u8() as u64);
    }

    pub fn set_pixel_format(&mut self, value: PixelFormat)
        requires
            old(self).wf(),
        ensures
            final(self)@ == with_field(old(self)@, 196, 4, value.code() as nat),
    {
        write_bits(&mut self.bytes, 6, 4, 4, value.as_u8() as u64);
    }

    pub fn set_frame_rate(&mut self, value: FrameRate)
        requires
            old(self).wf(),
        ensures
            final(self)@ == with_field(old(self)@, 200, 8, value.code() as nat),
    {
        write_bits(&mut self.bytes, 6, 8, 8, value.as_u8() as u64);
    }

    pub fn set_colorspace(&mut self, value: Colorspace)
        requires
            old(self).wf(),
        ensures
            final(self)@ == with_field(old(self)@, 208, 4, value.code() as nat),
    {
        write_bits(&mut self.bytes, 6, 16, 4, value.as_u8() as u64);
    }

    pub fn set_stream_id_valid(&mut self, value: bool)
        requires
            old(self).wf(),
        ensures
            final(self)@ == with_field(old(self)@, 8, 1, flag_value(value)),
    {
        write_flag(&mut self.bytes, 0, 8, value);
    }

    pub fn set_media_reset(&mut self, value: bool)
        requires
            old(self).wf(),
        ensures
            final(self)@ == with_field(old(self)@, 12, 1, flag_value(value)),
    {
        write_flag(&mut self.bytes, 0, 12, value);
    }

    pub fn set_timestamp_valid(&mut self, value: bool)
        requires
            old(self).wf(),
        ensures
            final(self)@ == with_field(old(self)@, 15, 1, flag_value(value)),
    {
        write_flag(&mut self.bytes, 0, 15, value);
    }

    pub fn set_timestamp_uncertain(&mut self, value: bool)
        requires
            old(self).wf(),
        ensures
            final(self)@ == with_field(old(self)@, 31, 1, flag_value(value)),
    {
        write_flag(&mut self.bytes, 0, 31, value);
    }

    pub fn set_ap(&mut self, value: bool)
        requires
            old(self).wf(),
        ensures
            final(self)@ == with_field(old(self)@, 176, 1, flag_value(value)),
    {
        write_flag(&mut self.bytes, 5, 16, value);
    }

    pub fn set_f(&mut self, value: bool)
        requires
            old(self).wf(),
        ensures
            final(self)@ == with_field(old(self)@, 178, 1, flag_value(value)),
    {
        write_flag(&mut self.bytes, 5, 18, value);
    }

    pub fn set_ef(&mut self, value: bool)
        requires
            old(self).wf(),
        ensures
            final(self)@ == with_field(old(self)@, 179, 1, flag_value(value)),
    {
        write_flag(&mut self.bytes, 5, 19, value);
    }

    pub fn set_i(&mut self, value: bool)
        requires
            old(self).wf(),
        ensures
            final(self)@ == with_field(old(self)@, 185, 1, flag_value(value)),
    {
        write_flag(&mut self.bytes, 5, 25, value);
    }

    pub fn set_pd(&mut self, value: bool)
        requires
            old(self).wf(),
        ensures
            final(self)@ == with_field(old(self)@, 184, 1, flag_value(value)),
    {
        write_flag(&mut self.bytes, 5, 24, value);
    }
}

} // verus!
