//! The error type shared by every format wrapper.
use vstd::prelude::*;

verus! {

/// Why a buffer could not be wrapped or a field could not be decoded.
#[derive(Debug, Clone, Copy, PartialEq, Eq)]
pub enum Error {
    /// The buffer is shorter than the header (or header and payload) needs.
    BufferTooSmall { required: usize, actual: usize },
    /// A field holds a value with no meaning in the standard.
    InvalidValue { field: &'static str, value: u64 },
    /// A value does not fit the bits its field has on the wire.
    ValueOutOfRange { field: &'static str, value: u64, bits: u8 },
    /// The declared payload length disagrees with what the frame holds.
    ///
    /// This variant and `ValueOutOfRange` belong to the VSS path and data
    /// encoding, which this crate does not cover; no function here returns
    /// them.
    PayloadLengthMismatch { declared: u16, actual: usize },
}

/// Result type of the fallible operations of this crate.
pub type Result<T> = core::result::Result<T, Error>;

/// The error for a field `field` that holds the meaningless code `value`.
pub fn invalid_value(field: &'static str, value: u8) -> (e: Error)
    ensures
        e == (Error::InvalidValue { field, value: value as u64 }),
{
    Error::InvalidValue { field, value: value as u64 }
}

} // verus!
