//! Encoders from characters to bytes.
//!
//! Each character becomes one to four bytes. An encoder hands out the first
//! at once and keeps the rest in an [`OutputBuffer`]; the caller drains that
//! buffer before it takes the next character from its source.
use vstd::prelude::*;
use vstd::utf8::{char_is_scalar, encode_scalar, encode_utf8};
use crate::error::EncodeError;

verus! {

/// The bytes of the current character that are still to be emitted.
pub struct OutputBuffer {
    buffer: Vec<u8>,
    buffer_index: usize,
}

impl OutputBuffer {
    /// The bytes still to be emitted, in order.
    pub closed spec fn pending(&self) -> Seq<u8> {
        self.buffer@.subrange(self.buffer_index as int, self.buffer@.len() as int)
    }

    pub closed spec fn wf(&self) -> bool {
        &&& self.buffer_index <= self.buffer@.len()
        &&& self.buffer@.len() <= 4
    }

    /// An empty buffer.
    pub fn new() -> (r: OutputBuffer)
        ensures
            r.wf(),
            r.pending() == Seq::<u8>::empty(),
    {
        OutputBuffer { buffer: Vec::new(), buffer_index: 0 }
    }

    /// True when no byte waits to be emitted.
    pub fn is_empty(&self) -> (r: bool)
        requires
            self.wf(),
        ensures
            r == (self.pending().len() == 0),
    {
        self.buffer_index >= self.buffer.len()
    }

    /// Takes the next pending byte, if any.
    pub fn next_byte(&mut self) -> (r: Option<u8>)
        requires
            old(self).wf(),
        ensures
            final(self).wf(),
            old(self).pending().len() == 0 ==> r is None && final(self).pending() == old(
                self,
            ).pending(),
            old(self).pending().len() > 0 ==> r == Some(old(self).pending()[0])
                && final(self).pending() == old(self).pending().drop_first(),
    {
        if self.buffer_index >= self.buffer.len() {
            return None;
        }
        let byte = self.buffer[self.buffer_index];
        self.buffer_index = self.buffer_index + 1;
        if self.buffer_index >= self.buffer.len() {
            self.buffer = Vec::new();
            self.buffer_index = 0;
        }
        assert(final(self).pending() =~= old(self).pending().drop_first());
        Some(byte)
    }

    /// Emits the first of `bytes` and keeps the others pending.
    pub fn start(&mut self, bytes: Vec<u8>) -> (r: u8)
        requires
            old(self).wf(),
            old(self).pending().len() == 0,
            1 <= bytes@.len() <= 4,
        ensures
            final(self).wf(),
            r == bytes@[0],
            final(self).pending() == bytes@.drop_first(),
    {
        let first = bytes[0];
        self.buffer = bytes;
        self.buffer_index = 1;
        assert(final(self).pending() =~= bytes@.drop_first());
        first
    }
}

/// The UTF-8 bytes of `c`.
pub fn utf8_bytes(c: char) -> (r: Vec<u8>)
    ensures
        r@ == encode_scalar(c as u32),
        1 <= r@.len() <= 4,
{
    proof {
        char_is_scalar(c);
    }
    let v = c as u32;
    if v <= 0x7F {
        vec![(v & 0x7F) as u8]
    } else if v <= 0x7FF {
        vec![0xC0 | ((v >> 6) & 0x1F) as u8, 0x80 | (v & 0x3F) as u8]
    } else if v <= 0xFFFF {
        vec![
            0xE0 | ((v >> 12) & 0x0F) as u8,
            0x80 | ((v >> 6) & 0x3F) as u8,
            0x80 | (v & 0x3F) as u8,
        ]
    } else {
        vec![
            0xF0 | ((v >> 18) & 0x7) as u8,
            0x80 | ((v >> 12) & 0x3F) as u8,
            0x80 | ((v >> 6) & 0x3F) as u8,
            0x80 | (v & 0x3F) as u8,
        ]
    }
}

/// Every character encodes to at least one and at most four UTF-8 bytes, so
/// encoding never yields zero bytes for a character.
pub proof fn lemma_utf8_never_empty(cs: Seq<char>)
    ensures
        forall|i: int| 0 <= i < cs.len() ==> 1 <= #[trigger] encode_scalar(cs[i] as u32).len() <= 4,
        cs.len() <= encode_utf8(cs).len() <= 4 * cs.len(),
    decreases cs.len(),
{
    if cs.len() > 0 {
        lemma_utf8_never_empty(cs.drop_first());
        assert forall|i: int| 0 <= i < cs.len() implies 1 <= #[trigger] encode_scalar(
            cs[i] as u32,
        ).len() <= 4 by {
            if i > 0 {
                assert(cs[i] == cs.drop_first()[i - 1]);
            }
        }
    }
}

/// Encodes a whole sequence of characters as UTF-8.
pub fn encode_utf8_chars(chars: &[char]) -> (r: Vec<u8>)
    ensures
        r@ == encode_utf8(chars@),
{
    let mut out: Vec<u8> = Vec::new();
    let mut i: usize = 0;
    assert(chars@.subrange(0, chars@.len() as int) =~= chars@);
    assert(out@ + encode_utf8(chars@) =~= encode_utf8(chars@));
    while i < chars.len()
        invariant
            i <= chars@.len(),
            encode_utf8(chars@) == out@ + encode_utf8(chars@.subrange(i as int, chars@.len() as int)),
        decreases chars@.len() - i,
    {
        let bytes = utf8_bytes(chars[i]);
        let mut j: usize = 0;
        let ghost before = out@;
        while j < bytes.len()
            invariant
                j <= bytes@.len(),
                out@ == before + bytes@.subrange(0, j as int),
            decreases bytes@.len() - j,
        {
            out.push(bytes[j]);
            j = j + 1;
            assert(out@ =~= before + bytes@.subrange(0, j as int));
        }
        proof {
            let rest = chars@.subrange(i as int, chars@.len() as int);
            assert(rest.drop_first() =~= chars@.subrange(i + 1, chars@.len() as int));
            assert(bytes@.subrange(0, bytes@.len() as int) =~= bytes@);
            assert(before + encode_utf8(rest) =~= out@ + encode_utf8(rest.drop_first()));
        }
        i = i + 1;
    }
    assert(chars@.subrange(i as int, chars@.len() as int) =~= Seq::<char>::empty());
    assert(out@ + Seq::<u8>::empty() =~= out@);
    out
}

/// Encoder to UTF-8, used where no legacy codepage applies.
pub struct Utf8Encoder {
    output: OutputBuffer,
}

impl Utf8Encoder {
    /// The bytes of the current character still to be emitted.
    pub closed spec fn pending(&self) -> Seq<u8> {
        self.output.pending()
    }

    pub closed spec fn wf(&self) -> bool {
        self.output.wf()
    }

    /// An encoder with nothing pending.
    pub fn new() -> (r: Utf8Encoder)
        ensures
            r.wf(),
            r.pending() == Seq::<u8>::empty(),
    {
        Utf8Encoder { output: OutputBuffer::new() }
    }

    /// True when the encoder needs the next character from its source.
    pub fn needs_char(&self) -> (r: bool)
        requires
            self.wf(),
        ensures
            r == (self.pending().len() == 0),
    {
        self.output.is_empty()
    }

    /// The next byte of the current character, if one is still pending.
    pub fn next_buffered(&mut self) -> (r: Option<u8>)
        requires
            old(self).wf(),
        ensures
            final(self).wf(),
            old(self).pending().len() == 0 ==> r is None && final(self).pending() == old(
                self,
            ).pending(),
            old(self).pending().len() > 0 ==> r == Some(old(self).pending()[0])
                && final(self).pending() == old(self).pending().drop_first(),
    {
        self.output.next_byte()
    }

    /// Takes the next character: returns its first UTF-8 byte and keeps the
    /// others pending.
    pub fn push_char(&mut self, c: char) -> (r: u8)
        requires
            old(self).wf(),
            old(self).pending().len() == 0,
        ensures
            final(self).wf(),
            r == encode_scalar(c as u32)[0],
            final(self).pending() == encode_scalar(c as u32).drop_first(),
    {
        let bytes = utf8_bytes(c);
        self.output.start(bytes)
    }
}

/// Encoder to the bytes of a legacy codepage.
///
/// The codepage conversion service turns the UTF-16 units of a character
/// ([`crate::utf16::utf16_units`]) into bytes; [`ByteEncoder::accept`] takes
/// what it produced.
pub struct ByteEncoder {
    codepage: u32,
    output: OutputBuffer,
}

impl ByteEncoder {
    /// The bytes of the current character still to be emitted.
    pub closed spec fn pending(&self) -> Seq<u8> {
        self.output.pending()
    }

    pub closed spec fn wf(&self) -> bool {
        self.output.wf()
    }

    pub closed spec fn spec_codepage(&self) -> u32 {
        self.codepage
    }

    /// An encoder for `codepage` with nothing pending.
    pub fn new(codepage: u32) -> (r: ByteEncoder)
        ensures
            r.wf(),
            r.spec_codepage() == codepage,
            r.pending() == Seq::<u8>::empty(),
    {
        ByteEncoder { codepage, output: OutputBuffer::new() }
    }

    /// The codepage this encoder writes.
    pub fn codepage(&self) -> (r: u32)
        ensures
            r == self.spec_codepage(),
    {
        self.codepage
    }

    /// True when the encoder needs the next character from its source.
    pub fn needs_char(&self) -> (r: bool)
        requires
            self.wf(),
        ensures
            r == (self.pending().len() == 0),
    {
        self.output.is_empty()
    }

    /// The next byte of the current character, if one is still pending.
    pub fn next_buffered(&mut self) -> (r: Option<u8>)
        requires
            old(self).wf(),
        ensures
            final(self).wf(),
            final(self).spec_codepage() == old(self).spec_codepage(),
            old(self).pending().len() == 0 ==> r is None && final(self).pending() == old(
                self,
            ).pending(),
            old(self).pending().len() > 0 ==> r == Some(old(self).pending()[0])
                && final(self).pending() == old(self).pending().drop_first(),
    {
        self.output.next_byte()
    }

    /// Takes the bytes that the conversion service produced for the next
    /// character: returns the first and keeps the others pending. No bytes
    /// at all means the character cannot be represented in the codepage:
    /// that is reported here as an error, and a stream that must not lose
    /// characters treats it as fatal.
    pub fn accept(&mut self, bytes: Vec<u8>) -> (r: Result<u8, EncodeError>)
        requires
            old(self).wf(),
            old(self).pending().len() == 0,
            bytes@.len() <= 4,
        ensures
            final(self).wf(),
            final(self).spec_codepage() == old(self).spec_codepage(),
            bytes@.len() == 0 ==> r == Err::<u8, EncodeError>(EncodeError::Unrepresentable)
                && final(self).pending() == old(self).pending(),
            bytes@.len() > 0 ==> r == Ok::<u8, EncodeError>(bytes@[0]) && final(self).pending()
                == bytes@.drop_first(),
    {
        if bytes.len() == 0 {
            return Err(EncodeError::Unrepresentable);
        }
        Ok(self.output.start(bytes))
    }
}

} // verus!
