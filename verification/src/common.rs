//! AVTP subtypes and ACF message types.
use vstd::prelude::*;
use crate::error::{invalid_value, Error, Result};

verus! {

/// IEEE 1722 AVTP subtype (see IEEE Std 1722-2016 Table 6).
#[derive(Debug, Clone, Copy, PartialEq, Eq, Structural, Hash)]
pub enum Subtype {
    Iidc61883,
    MmaStream,
    Aaf,
    Cvf,
    Crf,
    Tscf,
    Svf,
    Rvf,
    AefContinuous,
    VsfStream,
    EfStream,
    Ntscf,
    Escf,
    Eecf,
    AefDiscrete,
    Adp,
    Aecp,
    Acmp,
    Maap,
    EfControl,
}

impl Subtype {
    /// The code that stands for this value on the wire.
    pub open spec fn code(self) -> u8 {
        match self {
            Subtype::Iidc61883 => 0x00,
            Subtype::MmaStream => 0x01,
            Subtype::Aaf => 0x02,
            Subtype::Cvf => 0x03,
            Subtype::Crf => 0x04,
            Subtype::Tscf => 0x05,
            Subtype::Svf => 0x06,
            Subtype::Rvf => 0x07,
            Subtype::AefContinuous => 0x6E,
            Subtype::VsfStream => 0x6F,
            Subtype::EfStream => 0x7F,
            Subtype::Ntscf => 0x82,
            Subtype::Escf => 0xEC,
            Subtype::Eecf => 0xED,
            Subtype::AefDiscrete => 0xEE,
            Subtype::Adp => 0xFA,
            Subtype::Aecp => 0xFB,
            Subtype::Acmp => 0xFC,
            Subtype::Maap => 0xFE,
            Subtype::EfControl => 0xFF,
        }
    }

    /// The value a wire code stands for, if it stands for one.
    pub open spec fn from_code(code: u8) -> Option<Subtype> {
        match code {
            0x00 => Some(Subtype::Iidc61883),
            0x01 => Some(Subtype::MmaStream),
            0x02 => Some(Subtype::Aaf),
            0x03 => Some(Subtype::Cvf),
            0x04 => Some(Subtype::Crf),
            0x05 => Some(Subtype::Tscf),
            0x06 => Some(Subtype::Svf),
            0x07 => Some(Subtype::Rvf),
            0x6E => Some(Subtype::AefContinuous),
            0x6F => Some(Subtype::VsfStream),
            0x7F => Some(Subtype::EfStream),
            0x82 => Some(Subtype::Ntscf),
            0xEC => Some(Subtype::Escf),
            0xED => Some(Subtype::Eecf),
            0xEE => Some(Subtype::AefDiscrete),
            0xFA => Some(Subtype::Adp),
            0xFB => Some(Subtype::Aecp),
            0xFC => Some(Subtype::Acmp),
            0xFE => Some(Subtype::Maap),
            0xFF => Some(Subtype::EfControl),
            _ => None,
        }
    }

    /// Decoding of a wire code: the value it stands for, or
    /// [`Error::InvalidValue`] naming the code.
    pub open spec fn decode(code: u8) -> Result<Subtype> {
        match Subtype::from_code(code) {
            Some(v) => Ok(v),
            None => Err(Error::InvalidValue { field: "AVTP subtype", value: code as u64 }),
        }
    }

    /// The wire code of this value.
    pub fn as_u8(self) -> (code: u8)
        ensures
            code == self.code(),
    {
        match self {
            Subtype::Iidc61883 => 0x00,
            Subtype::MmaStream => 0x01,
            Subtype::Aaf => 0x02,
            Subtype::Cvf => 0x03,
            Subtype::Crf => 0x04,
            Subtype::Tscf => 0x05,
            Subtype::Svf => 0x06,
            Subtype::Rvf => 0x07,
            Subtype::AefContinuous => 0x6E,
            Subtype::VsfStream => 0x6F,
            Subtype::EfStream => 0x7F,
            Subtype::Ntscf => 0x82,
            Subtype::Escf => 0xEC,
            Subtype::Eecf => 0xED,
            Subtype::AefDiscrete => 0xEE,
            Subtype::Adp => 0xFA,
            Subtype::Aecp => 0xFB,
            Subtype::Acmp => 0xFC,
            Subtype::Maap => 0xFE,
            Subtype::EfControl => 0xFF,
        }
    }

    /// Decodes a wire code; fails with [`Error::InvalidValue`] on a code with no meaning.
    pub fn try_from(value: u8) -> (r: Result<Subtype>)
        ensures
            r == Subtype::decode(value),
    {
        match value {
            0x00 => Ok(Subtype::Iidc61883),
            0x01 => Ok(Subtype::MmaStream),
            0x02 => Ok(Subtype::Aaf),
            0x03 => Ok(Subtype::Cvf),
            0x04 => Ok(Subtype::Crf),
            0x05 => Ok(Subtype::Tscf),
            0x06 => Ok(Subtype::Svf),
            0x07 => Ok(Subtype::Rvf),
            0x6E => Ok(Subtype::AefContinuous),
            0x6F => Ok(Subtype::VsfStream),
            0x7F => Ok(Subtype::EfStream),
            0x82 => Ok(Subtype::Ntscf),
            0xEC => Ok(Subtype::Escf),
            0xED => Ok(Subtype::Eecf),
            0xEE => Ok(Subtype::AefDiscrete),
            0xFA => Ok(Subtype::Adp),
            0xFB => Ok(Subtype::Aecp),
            0xFC => Ok(Subtype::Acmp),
            0xFE => Ok(Subtype::Maap),
            0xFF => Ok(Subtype::EfControl),
            other => Err(invalid_value("AVTP subtype", other)),
        }
    }

    /// Decoding the wire code of a value gives the value back.
    pub proof fn lemma_decode_code(self)
        ensures
            Subtype::decode(self.code()) == Ok::<Subtype, Error>(self),
    {
    }

    /// A code that decodes to a value is that value's code.
    pub proof fn lemma_code_of_decoded(code: u8)
        ensures
            Subtype::decode(code) matches Ok(v) ==> v.code() == code,
    {
    }

    /// Every value goes on the wire as its code in the AVTP subtype codes of IEEE Std 1722 (Table 6).
    pub proof fn lemma_wire_codes()
        ensures
            Subtype::Iidc61883.code() == 0x00,
            Subtype::MmaStream.code() == 0x01,
            Subtype::Aaf.code() == 0x02,
            Subtype::Cvf.code() == 0x03,
            Subtype::Crf.code() == 0x04,
            Subtype::Tscf.code() == 0x05,
            Subtype::Svf.code() == 0x06,
            Subtype::Rvf.code() == 0x07,
            Subtype::AefContinuous.code() == 0x6E,
            Subtype::VsfStream.code() == 0x6F,
            Subtype::EfStream.code() == 0x7F,
            Subtype::Ntscf.code() == 0x82,
            Subtype::Escf.code() == 0xEC,
            Subtype::Eecf.code() == 0xED,
            Subtype::AefDiscrete.code() == 0xEE,
            Subtype::Adp.code() == 0xFA,
            Subtype::Aecp.code() == 0xFB,
            Subtype::Acmp.code() == 0xFC,
            Subtype::Maap.code() == 0xFE,
            Subtype::EfControl.code() == 0xFF,
    {
    }
}

/// ACF message type (see IEEE Std 1722-2016 Table 22).
///
/// `FlexRay` to `Ancillary` carry the codes of that table. The five types
/// after them (`ByteBus`, `ByteBusBrief`, `Gisf`, `CanV2`, `CanXl`) belong to
/// later revisions of the ACF format; no table available to this crate fixes
/// their codes, so this crate numbers them on from `Ancillary` (0x12 to
/// 0x16). Receivers that take their codes from elsewhere must map them.
#[derive(Debug, Clone, Copy, PartialEq, Eq, Structural, Hash)]
pub enum AcfMsgType {
    FlexRay,
    Can,
    CanBrief,
    Lin,
    Most,
    Gpc,
    Serial,
    Parallel,
    Sensor,
    SensorBrief,
    Aecp,
    Ancillary,
    /// Generic byte bus (GBB), with a message timestamp.
    ByteBus,
    /// Abbreviated byte bus (ABB), without a message timestamp.
    ByteBusBrief,
    /// Generic image sensor format.
    Gisf,
    /// CAN framing with an 11-bit bus id.
    CanV2,
    /// CAN XL framing.
    CanXl,
}

impl AcfMsgType {
    /// The code that stands for this value on the wire.
    pub open spec fn code(self) -> u8 {
        match self {
            AcfMsgType::FlexRay => 0x00,
            AcfMsgType::Can => 0x01,
            AcfMsgType::CanBrief => 0x02,
            AcfMsgType::Lin => 0x03,
            AcfMsgType::Most => 0x04,
            AcfMsgType::Gpc => 0x05,
            AcfMsgType::Serial => 0x06,
            AcfMsgType::Parallel => 0x07,
            AcfMsgType::Sensor => 0x08,
            AcfMsgType::SensorBrief => 0x09,
            AcfMsgType::Aecp => 0x10,
            AcfMsgType::Ancillary => 0x11,
            AcfMsgType::ByteBus => 0x12,
            AcfMsgType::ByteBusBrief => 0x13,
            AcfMsgType::Gisf => 0x14,
            AcfMsgType::CanV2 => 0x15,
            AcfMsgType::CanXl => 0x16,
        }
    }

    /// The value a wire code stands for, if it stands for one.
    pub open spec fn from_code(code: u8) -> Option<AcfMsgType> {
        match code {
            0x00 => Some(AcfMsgType::FlexRay),
            0x01 => Some(AcfMsgType::Can),
            0x02 => Some(AcfMsgType::CanBrief),
            0x03 => Some(AcfMsgType::Lin),
            0x04 => Some(AcfMsgType::Most),
            0x05 => Some(AcfMsgType::Gpc),
            0x06 => Some(AcfMsgType::Serial),
            0x07 => Some(AcfMsgType::Parallel),
            0x08 => Some(AcfMsgType::Sensor),
            0x09 => Some(AcfMsgType::SensorBrief),
            0x10 => Some(AcfMsgType::Aecp),
            0x11 => Some(AcfMsgType::Ancillary),
            0x12 => Some(AcfMsgType::ByteBus),
            0x13 => Some(AcfMsgType::ByteBusBrief),
            0x14 => Some(AcfMsgType::Gisf),
            0x15 => Some(AcfMsgType::CanV2),
            0x16 => Some(AcfMsgType::CanXl),
            _ => None,
        }
    }

    /// Decoding of a wire code: the value it stands for, or
    /// [`Error::InvalidValue`] naming the code.
    pub open spec fn decode(code: u8) -> Result<AcfMsgType> {
        match AcfMsgType::from_code(code) {
            Some(v) => Ok(v),
            None => Err(Error::InvalidValue { field: "ACF message type", value: code as u64 }),
        }
    }

    /// The wire code of this value.
    pub fn as_u8(self) -> (code: u8)
        ensures
            code == self.code(),
    {
        match self {
            AcfMsgType::FlexRay => 0x00,
            AcfMsgType::Can => 0x01,
            AcfMsgType::CanBrief => 0x02,
            AcfMsgType::Lin => 0x03,
            AcfMsgType::Most => 0x04,
            AcfMsgType::Gpc => 0x05,
            AcfMsgType::Serial => 0x06,
            AcfMsgType::Parallel => 0x07,
            AcfMsgType::Sensor => 0x08,
            AcfMsgType::SensorBrief => 0x09,
            AcfMsgType::Aecp => 0x10,
            AcfMsgType::Ancillary => 0x11,
            AcfMsgType::ByteBus => 0x12,
            AcfMsgType::ByteBusBrief => 0x13,
            AcfMsgType::Gisf => 0x14,
            AcfMsgType::CanV2 => 0x15,
            AcfMsgType::CanXl => 0x16,
        }
    }

    /// Decodes a wire code; fails with [`Error::InvalidValue`] on a code with no meaning.
    pub fn try_from(value: u8) -> (r: Result<AcfMsgType>)
        ensures
            r == AcfMsgType::decode(value),
    {
        match value {
            0x00 => Ok(AcfMsgType::FlexRay),
            0x01 => Ok(AcfMsgType::Can),
            0x02 => Ok(AcfMsgType::CanBrief),
            0x03 => Ok(AcfMsgType::Lin),
            0x04 => Ok(AcfMsgType::Most),
            0x05 => Ok(AcfMsgType::Gpc),
            0x06 => Ok(AcfMsgType::Serial),
            0x07 => Ok(AcfMsgType::Parallel),
            0x08 => Ok(AcfMsgType::Sensor),
            0x09 => Ok(AcfMsgType::SensorBrief),
            0x10 => Ok(AcfMsgType::Aecp),
            0x11 => Ok(AcfMsgType::Ancillary),
            0x12 => Ok(AcfMsgType::ByteBus),
            0x13 => Ok(AcfMsgType::ByteBusBrief),
            0x14 => Ok(AcfMsgType::Gisf),
            0x15 => Ok(AcfMsgType::CanV2),
            0x16 => Ok(AcfMsgType::CanXl),
            other => Err(invalid_value("ACF message type", other)),
        }
    }

    /// Decoding the wire code of a value gives the value back.
    pub proof fn lemma_decode_code(self)
        ensures
            AcfMsgType::decode(self.code()) == Ok::<AcfMsgType, Error>(self),
    {
    }

    /// A code that decodes to a value is that value's code.
    pub proof fn lemma_code_of_decoded(code: u8)
        ensures
            AcfMsgType::decode(code) matches Ok(v) ==> v.code() == code,
    {
    }

    /// Every value goes on the wire as its code in the ACF message type codes of IEEE Std 1722 (Table 22), and the numbering this crate gives the later types.
    pub proof fn lemma_wire_codes()
        ensures
            AcfMsgType::FlexRay.code() == 0x00,
            AcfMsgType::Can.code() == 0x01,
            AcfMsgType::CanBrief.code() == 0x02,
            AcfMsgType::Lin.code() == 0x03,
            AcfMsgType::Most.code() == 0x04,
            AcfMsgType::Gpc.code() == 0x05,
            AcfMsgType::Serial.code() == 0x06,
            AcfMsgType::Parallel.code() == 0x07,
            AcfMsgType::Sensor.code() == 0x08,
            AcfMsgType::SensorBrief.code() == 0x09,
            AcfMsgType::Aecp.code() == 0x10,
            AcfMsgType::Ancillary.code() == 0x11,
            AcfMsgType::ByteBus.code() == 0x12,
            AcfMsgType::ByteBusBrief.code() == 0x13,
            AcfMsgType::Gisf.code() == 0x14,
            AcfMsgType::CanV2.code() == 0x15,
            AcfMsgType::CanXl.code() == 0x16,
    {
    }
}

impl TryFrom<u8> for Subtype {
    type Error = Error;

    /// Decodes a wire code, as the inherent [`Subtype::try_from`] does.
    fn try_from(value: u8) -> (r: Result<Subtype>) {
        Subtype::try_from(value)
    }
}

impl vstd::std_specs::convert::TryFromSpecImpl<u8> for Subtype {
    open spec fn obeys_try_from_spec() -> bool {
        true
    }

    open spec fn try_from_spec(v: u8) -> Result<Subtype> {
        Subtype::decode(v)
    }
}

impl TryFrom<u8> for AcfMsgType {
    type Error = Error;

    /// Decodes a wire code, as the inherent [`AcfMsgType::try_from`] does.
    fn try_from(value: u8) -> (r: Result<AcfMsgType>) {
        AcfMsgType::try_from(value)
    }
}

impl vstd::std_specs::convert::TryFromSpecImpl<u8> for AcfMsgType {
    open spec fn obeys_try_from_spec() -> bool {
        true
    }

    open spec fn try_from_spec(v: u8) -> Result<AcfMsgType> {
        AcfMsgType::decode(v)
    }
}

} // verus!
