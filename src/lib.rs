//! Streaming conversion between a platform's local byte encoding and Unicode
//! scalar values.
//!
//! The decoder and the encoders are step machines: the caller owns the
//! upstream source and the codepage conversion service, performs the action
//! that each step asks for, and hands the outcome back.
pub mod decoder;
pub mod encoder;
pub mod error;
pub mod local;
pub mod utf16;
pub mod utf8;

pub use decoder::{ByteDecoder, DecodePhase, DecodeStep};
pub use encoder::{ByteEncoder, OutputBuffer, Utf8Encoder};
pub use error::{DecodeError, EncodeError};
pub use local::{LocalDecode, LocalEncode};
