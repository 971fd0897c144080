//! The two named profiles, "console" and "file". Where no legacy codepage
//! layer exists both resolve to UTF-8; a codepage platform resolves each to
//! its own codepage and drives [`crate::ByteDecoder`] and
//! [`crate::ByteEncoder`] with it.
use vstd::prelude::*;
use vstd::utf8::encode_utf8;
use crate::encoder::encode_utf8_chars;
use crate::error::DecodeError;
use crate::utf8::{decode_utf8_all, utf8_items};

verus! {

/// Decoding bytes under the console or the file profile.
pub trait LocalDecode<I>: Sized {
    fn local_console_decode(self) -> I;

    fn local_file_decode(self) -> I;
}

/// Encoding characters under the console or the file profile.
pub trait LocalEncode<I>: Sized {
    fn local_console_encode(self) -> I;

    fn local_file_encode(self) -> I;
}

impl<'a> LocalDecode<Vec<Result<char, DecodeError>>> for &'a [u8] {
    fn local_console_decode(self) -> (r: Vec<Result<char, DecodeError>>)
        ensures
            r@ == utf8_items(self@),
    {
        decode_utf8_all(self)
    }

    fn local_file_decode(self) -> (r: Vec<Result<char, DecodeError>>)
        ensures
            r@ == utf8_items(self@),
    {
        decode_utf8_all(self)
    }
}

impl<'a> LocalEncode<Vec<u8>> for &'a [char] {
    fn local_console_encode(self) -> (r: Vec<u8>)
        ensures
            r@ == encode_utf8(self@),
    {
        encode_utf8_chars(self)
    }

    fn local_file_encode(self) -> (r: Vec<u8>)
        ensures
            r@ == encode_utf8(self@),
    {
        encode_utf8_chars(self)
    }
}

} // verus!
