//! Errors reported by the decoders and encoders.
use vstd::prelude::*;

verus! {

/// Why one item of a decoded stream is not a character.
#[derive(Clone, Copy, Debug, PartialEq, Eq, Structural)]
pub enum DecodeError {
    /// The byte source ended in the middle of a multi-byte character.
    Truncated,
    /// The bytes do not form a character: a malformed sequence, or one that
    /// the codepage maps only to its default replacement character.
    InvalidSequence,
    /// The conversion produced an unpaired or misplaced UTF-16 surrogate.
    InvalidSurrogate,
    /// The conversion service failed on a run whose first byte is not a
    /// lead byte of the codepage.
    ConversionFailed,
    /// No character was complete after the longest supported run of bytes.
    TooLong,
}

/// Why a character could not be encoded.
#[derive(Clone, Copy, Debug, PartialEq, Eq, Structural)]
pub enum EncodeError {
    /// The conversion service produced no bytes for the character.
    Unrepresentable,
}

impl DecodeError {
    /// A short description of the error.
    pub fn message(&self) -> (r: &'static str) {
        match self {
            DecodeError::Truncated => "unexpected end of a multi-byte sequence",
            DecodeError::InvalidSequence => "invalid byte sequence",
            DecodeError::InvalidSurrogate => "invalid UTF-16 surrogate in conversion",
            DecodeError::ConversionFailed => "codepage conversion failed",
            DecodeError::TooLong => "single character is longer than 8 bytes",
        }
    }
}

} // verus!
