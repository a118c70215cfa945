//! Custom ACF formats: COVESA's VSS (Vehicle Signal Specification) mapping
//! to IEEE 1722, defined outside the IEEE 1722 spec itself.
pub mod vss;
pub mod vss_brief;

use vstd::prelude::*;
use crate::error::{Error, Result, invalid_value};

verus! {

/// ACF message type of VSS and VSS Brief messages: a vendor-assigned code
/// outside the standardized [`AcfMsgType`](crate::common::AcfMsgType) set.
pub const VSS_MSG_TYPE: u8 = 0x42;

/// VSS addressing mode: interop (string path) or static-id (32-bit code).
#[derive(Debug, Clone, Copy, PartialEq, Eq, Structural)]
pub enum AddrMode {
    Interop,
    StaticId,
}

impl AddrMode {
    /// The code that stands for this value on the wire.
    pub open spec fn code(self) -> u8 {
        match self {
            AddrMode::Interop => 0x00,
            AddrMode::StaticId => 0x01,
        }
    }

    /// The value a wire code stands for, if it stands for one.
    pub open spec fn from_code(code: u8) -> Option<AddrMode> {
        match code {
            0x00 => Some(AddrMode::Interop),
            0x01 => Some(AddrMode::StaticId),
            _ => None,
        }
    }

    /// Decoding of a wire code: the value it stands for, or
    /// [`Error::InvalidValue`] naming the code.
    pub open spec fn decode(code: u8) -> Result<AddrMode> {
        match AddrMode::from_code(code) {
            Some(v) => Ok(v),
            None => Err(Error::InvalidValue { field: "VSS addr mode", value: code as u64 }),
        }
    }

    /// The wire code of this value.
    pub fn as_u8(self) -> (code: u8)
        ensures
            code == self.code(),
    {
        match self {
            AddrMode::Interop => 0x00,
            AddrMode::StaticId => 0x01,
        }
    }

    /// Decodes a wire code; fails with [`Error::InvalidValue`] on a code with no meaning.
    pub fn from_raw(value: u8) -> (r: Result<AddrMode>)
        ensures
            r == AddrMode::decode(value),
    {
        match value {
            0x00 => Ok(AddrMode::Interop),
            0x01 => Ok(AddrMode::StaticId),
            other => Err(invalid_value("VSS addr mode", other)),
        }
    }

    /// Decoding the wire code of a value gives the value back.
    pub proof fn lemma_decode_code(self)
        ensures
            AddrMode::decode(self.code()) == Ok::<AddrMode, Error>(self),
    {
    }

    /// A code that decodes to a value is that value's code.
    pub proof fn lemma_code_of_decoded(code: u8)
        ensures
            AddrMode::decode(code) matches Ok(v) ==> v.code() == code,
    {
    }

    /// Every value goes on the wire as its code in the VSS addressing mode codes of the COVESA VSS mapping to IEEE 1722.
    pub proof fn lemma_wire_codes()
        ensures
            AddrMode::Interop.code() == 0x00,
            AddrMode::StaticId.code() == 0x01,
    {
    }
}

/// VSS message operation.
#[derive(Debug, Clone, Copy, PartialEq, Eq, Structural)]
pub enum OpCode {
    PublishCurrentValue,
    PublishTargetValue,
}

impl OpCode {
    /// The code that stands for this value on the wire.
    pub open spec fn code(self) -> u8 {
        match self {
            OpCode::PublishCurrentValue => 0x00,
            OpCode::PublishTargetValue => 0x01,
        }
    }

    /// The value a wire code stands for, if it stands for one.
    pub open spec fn from_code(code: u8) -> Option<OpCode> {
        match code {
            0x00 => Some(OpCode::PublishCurrentValue),
            0x01 => Some(OpCode::PublishTargetValue),
            _ => None,
        }
    }

    /// Decoding of a wire code: the value it stands for, or
    /// [`Error::InvalidValue`] naming the code.
    pub open spec fn decode(code: u8) -> Result<OpCode> {
        match OpCode::from_code(code) {
            Some(v) => Ok(v),
            None => Err(Error::InvalidValue { field: "VSS op code", value: code as u64 }),
        }
    }

    /// The wire code of this value.
    pub fn as_u8(self) -> (code: u8)
        ensures
            code == self.code(),
    {
        match self {
            OpCode::PublishCurrentValue => 0x00,
            OpCode::PublishTargetValue => 0x01,
        }
    }

    /// Decodes a wire code; fails with [`Error::InvalidValue`] on a code with no meaning.
    pub fn from_raw(value: u8) -> (r: Result<OpCode>)
        ensures
            r == OpCode::decode(value),
    {
        match value {
            0x00 => Ok(OpCode::PublishCurrentValue),
            0x01 => Ok(OpCode::PublishTargetValue),
            other => Err(invalid_value("VSS op code", other)),
        }
    }

    /// Decoding the wire code of a value gives the value back.
    pub proof fn lemma_decode_code(self)
        ensures
            OpCode::decode(self.code()) == Ok::<OpCode, Error>(self),
    {
    }

    /// A code that decodes to a value is that value's code.
    pub proof fn lemma_code_of_decoded(code: u8)
        ensures
            OpCode::decode(code) matches Ok(v) ==> v.code() == code,
    {
    }

    /// Every value goes on the wire as its code in the VSS operation codes of the COVESA VSS mapping to IEEE 1722.
    pub proof fn lemma_wire_codes()
        ensures
            OpCode::PublishCurrentValue.code() == 0x00,
            OpCode::PublishTargetValue.code() == 0x01,
    {
    }
}

/// VSS payload datatype tag. Array variants are array-of-scalar of the
/// corresponding scalar type.
#[derive(Debug, Clone, Copy, PartialEq, Eq, Structural)]
pub enum Datatype {
    U8,
    I8,
    U16,
    I16,
    U32,
    I32,
    U64,
    I64,
    Bool,
    F32,
    F64,
    String,
    U8Array,
    I8Array,
    U16Array,
    I16Array,
    U32Array,
    I32Array,
    U64Array,
    I64Array,
    BoolArray,
    F32Array,
    F64Array,
    StringArray,
}

impl Datatype {
    /// The code that stands for this value on the wire.
    pub open spec fn code(self) -> u8 {
        match self {
            Datatype::U8 => 0x00,
            Datatype::I8 => 0x01,
            Datatype::U16 => 0x02,
            Datatype::I16 => 0x03,
            Datatype::U32 => 0x04,
            Datatype::I32 => 0x05,
            Datatype::U64 => 0x06,
            Datatype::I64 => 0x07,
            Datatype::Bool => 0x08,
            Datatype::F32 => 0x09,
            Datatype::F64 => 0x0A,
            Datatype::String => 0x0B,
            Datatype::U8Array => 0x80,
            Datatype::I8Array => 0x81,
            Datatype::U16Array => 0x82,
            Datatype::I16Array => 0x83,
            Datatype::U32Array => 0x84,
            Datatype::I32Array => 0x85,
            Datatype::U64Array => 0x86,
            Datatype::I64Array => 0x87,
            Datatype::BoolArray => 0x88,
            Datatype::F32Array => 0x89,
            Datatype::F64Array => 0x8A,
            Datatype::StringArray => 0x8B,
        }
    }

    /// The value a wire code stands for, if it stands for one.
    pub open spec fn from_code(code: u8) -> Option<Datatype> {
        match code {
            0x00 => Some(Datatype::U8),
            0x01 => Some(Datatype::I8),
            0x02 => Some(Datatype::U16),
            0x03 => Some(Datatype::I16),
            0x04 => Some(Datatype::U32),
            0x05 => Some(Datatype::I32),
            0x06 => Some(Datatype::U64),
            0x07 => Some(Datatype::I64),
            0x08 => Some(Datatype::Bool),
            0x09 => Some(Datatype::F32),
            0x0A => Some(Datatype::F64),
            0x0B => Some(Datatype::String),
            0x80 => Some(Datatype::U8Array),
            0x81 => Some(Datatype::I8Array),
            0x82 => Some(Datatype::U16Array),
            0x83 => Some(Datatype::I16Array),
            0x84 => Some(Datatype::U32Array),
            0x85 => Some(Datatype::I32Array),
            0x86 => Some(Datatype::U64Array),
            0x87 => Some(Datatype::I64Array),
            0x88 => Some(Datatype::BoolArray),
            0x89 => Some(Datatype::F32Array),
            0x8A => Some(Datatype::F64Array),
            0x8B => Some(Datatype::StringArray),
            _ => None,
        }
    }

    /// Decoding of a wire code: the value it stands for, or
    /// [`Error::InvalidValue`] naming the code.
    pub open spec fn decode(code: u8) -> Result<Datatype> {
        match Datatype::from_code(code) {
            Some(v) => Ok(v),
            None => Err(Error::InvalidValue { field: "VSS datatype", value: code as u64 }),
        }
    }

    /// The wire code of this value.
    pub fn as_u8(self) -> (code: u8)
        ensures
            code == self.code(),
    {
        match self {
            Datatype::U8 => 0x00,
            Datatype::I8 => 0x01,
            Datatype::U16 => 0x02,
            Datatype::I16 => 0x03,
            Datatype::U32 => 0x04,
            Datatype::I32 => 0x05,
            Datatype::U64 => 0x06,
            Datatype::I64 => 0x07,
            Datatype::Bool => 0x08,
            Datatype::F32 => 0x09,
            Datatype::F64 => 0x0A,
            Datatype::String => 0x0B,
            Datatype::U8Array => 0x80,
            Datatype::I8Array => 0x81,
            Datatype::U16Array => 0x82,
            Datatype::I16Array => 0x83,
            Datatype::U32Array => 0x84,
            Datatype::I32Array => 0x85,
            Datatype::U64Array => 0x86,
            Datatype::I64Array => 0x87,
            Datatype::BoolArray => 0x88,
            Datatype::F32Array => 0x89,
            Datatype::F64Array => 0x8A,
            Datatype::StringArray => 0x8B,
        }
    }

    /// Decodes a wire code; fails with [`Error::InvalidValue`] on a code with no meaning.
    pub fn from_raw(value: u8) -> (r: Result<Datatype>)
        ensures
            r == Datatype::decode(value),
    {
        match value {
            0x00 => Ok(Datatype::U8),
            0x01 => Ok(Datatype::I8),
            0x02 => Ok(Datatype::U16),
            0x03 => Ok(Datatype::I16),
            0x04 => Ok(Datatype::U32),
            0x05 => Ok(Datatype::I32),
            0x06 => Ok(Datatype::U64),
            0x07 => Ok(Datatype::I64),
            0x08 => Ok(Datatype::Bool),
            0x09 => Ok(Datatype::F32),
            0x0A => Ok(Datatype::F64),
            0x0B => Ok(Datatype::String),
            0x80 => Ok(Datatype::U8Array),
            0x81 => Ok(Datatype::I8Array),
            0x82 => Ok(Datatype::U16Array),
            0x83 => Ok(Datatype::I16Array),
            0x84 => Ok(Datatype::U32Array),
            0x85 => Ok(Datatype::I32Array),
            0x86 => Ok(Datatype::U64Array),
            0x87 => Ok(Datatype::I64Array),
            0x88 => Ok(Datatype::BoolArray),
            0x89 => Ok(Datatype::F32Array),
            0x8A => Ok(Datatype::F64Array),
            0x8B => Ok(Datatype::StringArray),
            other => Err(invalid_value("VSS datatype", other)),
        }
    }

    /// The datatype is an array of the corresponding scalar type.
    pub fn is_array(self) -> (r: bool)
        ensures
            r == (self.code() >= 0x80),
    {
        let code = self.as_u8();
        assert(((code & 0x80u8) != 0u8) == (code >= 0x80u8)) by (bit_vector);
        code & 0x80 != 0
    }

    /// Decoding the wire code of a value gives the value back.
    pub proof fn lemma_decode_code(self)
        ensures
            Datatype::decode(self.code()) == Ok::<Datatype, Error>(self),
    {
    }

    /// A code that decodes to a value is that value's code.
    pub proof fn lemma_code_of_decoded(code: u8)
        ensures
            Datatype::decode(code) matches Ok(v) ==> v.code() == code,
    {
    }

    /// Every value goes on the wire as its code in the VSS datatype codes of the COVESA VSS mapping to IEEE 1722.
    pub proof fn lemma_wire_codes()
        ensures
            Datatype::U8.code() == 0x00,
            Datatype::I8.code() == 0x01,
            Datatype::U16.code() == 0x02,
            Datatype::I16.code() == 0x03,
            Datatype::U32.code() == 0x04,
            Datatype::I32.code() == 0x05,
            Datatype::U64.code() == 0x06,
            Datatype::I64.code() == 0x07,
            Datatype::Bool.code() == 0x08,
            Datatype::F32.code() == 0x09,
            Datatype::F64.code() == 0x0A,
            Datatype::String.code() == 0x0B,
            Datatype::U8Array.code() == 0x80,
            Datatype::I8Array.code() == 0x81,
            Datatype::U16Array.code() == 0x82,
            Datatype::I16Array.code() == 0x83,
            Datatype::U32Array.code() == 0x84,
            Datatype::I32Array.code() == 0x85,
            Datatype::U64Array.code() == 0x86,
            Datatype::I64Array.code() == 0x87,
            Datatype::BoolArray.code() == 0x88,
            Datatype::F32Array.code() == 0x89,
            Datatype::F64Array.code() == 0x8A,
            Datatype::StringArray.code() == 0x8B,
    {
    }

    /// The scalar type an array datatype holds; a scalar datatype is its own.
    pub open spec fn element(self) -> Datatype {
        match self {
            Datatype::U8 => Datatype::U8,
            Datatype::I8 => Datatype::I8,
            Datatype::U16 => Datatype::U16,
            Datatype::I16 => Datatype::I16,
            Datatype::U32 => Datatype::U32,
            Datatype::I32 => Datatype::I32,
            Datatype::U64 => Datatype::U64,
            Datatype::I64 => Datatype::I64,
            Datatype::Bool => Datatype::Bool,
            Datatype::F32 => Datatype::F32,
            Datatype::F64 => Datatype::F64,
            Datatype::String => Datatype::String,
            Datatype::U8Array => Datatype::U8,
            Datatype::I8Array => Datatype::I8,
            Datatype::U16Array => Datatype::U16,
            Datatype::I16Array => Datatype::I16,
            Datatype::U32Array => Datatype::U32,
            Datatype::I32Array => Datatype::I32,
            Datatype::U64Array => Datatype::U64,
            Datatype::I64Array => Datatype::I64,
            Datatype::BoolArray => Datatype::Bool,
            Datatype::F32Array => Datatype::F32,
            Datatype::F64Array => Datatype::F64,
            Datatype::StringArray => Datatype::String,
        }
    }

    /// For an integer datatype, its width in bytes as a power of two (0 for
    /// 8-bit, 1 for 16-bit, 2 for 32-bit, 3 for 64-bit); none for the others.
    pub open spec fn int_width_rank(self) -> Option<nat> {
        match self {
            Datatype::U8 => Some(0nat),
            Datatype::I8 => Some(0nat),
            Datatype::U16 => Some(1nat),
            Datatype::I16 => Some(1nat),
            Datatype::U32 => Some(2nat),
            Datatype::I32 => Some(2nat),
            Datatype::U64 => Some(3nat),
            Datatype::I64 => Some(3nat),
            _ => None,
        }
    }

    /// The datatype is a signed integer.
    pub open spec fn is_signed_int(self) -> bool {
        matches!(self, Datatype::I8 | Datatype::I16 | Datatype::I32 | Datatype::I64)
    }

    /// How the datatype codes are built: an array's code is its element's
    /// code with the top bit set, and a scalar's code has it clear; an integer
    /// type's code is twice its width rank, plus one when it is signed; the
    /// 64-bit float follows the 32-bit one; and the codes of distinct
    /// datatypes differ.
    pub proof fn lemma_code_structure(d: Datatype, e: Datatype)
        ensures
            (d.element() == d) == (d.code() < 0x80),
            d.element().code() < 0x80,
            d.code() >= 0x80 ==> d.code() == d.element().code() + 0x80,
            d.int_width_rank() matches Some(k) ==> d.code() == 2 * k + if d.is_signed_int() {
                1nat
            } else {
                0nat
            },
            Datatype::F64.code() == Datatype::F32.code() + 1,
            Datatype::F32.code() == Datatype::Bool.code() + 1,
            d.code() == e.code() ==> d == e,
    {
    }
}

} // verus!
