//! Decoding UTF-8, used where no legacy codepage applies.
//!
//! Each item takes one character from the front of the input, or reports one
//! malformed sequence; the bytes it examined are consumed either way, and
//! decoding goes on after them without any attempt to resynchronise.
//! Malformed means an invalid leading or continuation byte, a sequence cut
//! off by the end of the input, an overlong encoding, or a value that is not
//! a Unicode scalar value.
use vstd::prelude::*;
use vstd::utf8::{
    decode_first_codepoint, decode_first_scalar, decode_utf8, decode_utf8_encode_utf8,
    encode_utf8, encode_utf8_decode_utf8, encode_utf8_valid_utf8, is_continuation_byte,
    is_scalar, length_of_first_scalar, not_overlong_encoding, pop_first_scalar, valid_first_scalar, valid_utf8,
};
use crate::error::DecodeError;

verus! {

/// The length of a UTF-8 sequence announced by its first byte, or 0 when
/// the byte cannot begin one.
pub open spec fn lead_width(a: u8) -> int {
    if a <= 0x7F {
        1
    } else if 0xC0 <= a <= 0xDF {
        2
    } else if 0xE0 <= a <= 0xEF {
        3
    } else if 0xF0 <= a <= 0xF7 {
        4
    } else {
        0
    }
}

/// True when the byte at `i` is needed for a sequence of width `w` and is
/// missing or not a continuation byte.
pub open spec fn bad_at(s: Seq<u8>, w: int, i: int) -> bool {
    w > i && (i >= s.len() || !is_continuation_byte(s[i]))
}

/// The index of the first needed byte that is missing or malformed, or the
/// width itself when every needed byte is in place.
pub open spec fn first_bad(s: Seq<u8>) -> int {
    let w = lead_width(s[0]);
    if bad_at(s, w, 1) {
        1
    } else if bad_at(s, w, 2) {
        2
    } else if bad_at(s, w, 3) {
        3
    } else {
        w
    }
}

/// The item decoded from the front of `s`; `None` when `s` is empty.
pub open spec fn front_item(s: Seq<u8>) -> Option<Result<char, DecodeError>> {
    if s.len() == 0 {
        None
    } else if lead_width(s[0]) == 0 {
        Some(Err(DecodeError::InvalidSequence))
    } else if first_bad(s) < lead_width(s[0]) {
        if first_bad(s) >= s.len() {
            Some(Err(DecodeError::Truncated))
        } else {
            Some(Err(DecodeError::InvalidSequence))
        }
    } else if is_scalar(decode_first_codepoint(s)) {
        Some(Ok(decode_first_codepoint(s) as char))
    } else {
        Some(Err(DecodeError::InvalidSequence))
    }
}

/// The number of bytes that the front item consumes: those examined, the
/// offending byte included.
pub open spec fn front_len(s: Seq<u8>) -> int {
    if s.len() == 0 {
        0
    } else if lead_width(s[0]) == 0 {
        1
    } else if first_bad(s) < lead_width(s[0]) {
        if first_bad(s) >= s.len() {
            s.len() as int
        } else {
            first_bad(s) + 1
        }
    } else {
        lead_width(s[0])
    }
}

/// The item that decoding gives for the front of `s`: the character read as
/// in [`front_item`], except that an overlong encoding (more bytes than the
/// value needs) is an invalid sequence. It consumes [`front_len`] bytes.
pub open spec fn checked_item(s: Seq<u8>) -> Option<Result<char, DecodeError>> {
    if front_item(s) matches Some(Ok(c)) && !not_overlong_encoding(c as u32, front_len(s)) {
        Some(Err(DecodeError::InvalidSequence))
    } else {
        front_item(s)
    }
}

/// The items of decoding all of `s`, front to back.
pub open spec fn utf8_items(s: Seq<u8>) -> Seq<Result<char, DecodeError>>
    decreases s.len(),
{
    if s.len() == 0 {
        seq![]
    } else {
        seq![checked_item(s).unwrap()] + utf8_items(s.skip(front_len(s)))
    }
}

/// Turns a character read from `used` bytes into an invalid sequence when
/// those bytes are an overlong encoding of it.
fn reject_overlong(item: Option<Result<char, DecodeError>>, used: usize) -> (r: Option<
    Result<char, DecodeError>,
>)
    ensures
        r == (if item matches Some(Ok(c)) && !not_overlong_encoding(c as u32, used as int) {
            Some(Err(DecodeError::InvalidSequence))
        } else {
            item
        }),
{
    match item {
        Some(Ok(c)) => {
            let v = c as u32;
            if (used == 2 && v < 0x80) || (used == 3 && v < 0x800) || (used == 4 && (v < 0x10000
                || v > 0x10FFFF)) {
                Some(Err(DecodeError::InvalidSequence))
            } else {
                item
            }
        },
        _ => item,
    }
}

proof fn lemma_front_len_bounds(s: Seq<u8>)
    requires
        s.len() > 0,
    ensures
        1 <= front_len(s) <= s.len(),
        front_item(s) is Some,
{
}

/// Relies on `utf8_decode::decode`: it reads one UTF-8 character from the
/// front of a byte iterator, consuming each byte it examines; a missing byte
/// is an `UnexpectedEof` error, any other failure an `InvalidData` error.
/// Here the iterator runs over `bytes` from `start`, and what is left of it
/// afterwards is returned with the item.
#[verifier::external_body]
fn utf8_decode_front(bytes: &[u8], start: usize) -> (r: (Option<Result<char, DecodeError>>, usize))
    requires
        start <= bytes@.len(),
    ensures
        r.0 == front_item(bytes@.skip(start as int)),
        r.1 == bytes@.len() - start - front_len(bytes@.skip(start as int)),
{
    let mut rest = bytes[start..].iter();
    let item = match utf8_decode::decode(&mut rest.by_ref().copied()) {
        None => None,
        Some(Ok(c)) => Some(Ok(c)),
        Some(Err(e)) if e.kind() == std::io::ErrorKind::UnexpectedEof => Some(Err(DecodeError::Truncated)),
        Some(Err(_)) => Some(Err(DecodeError::InvalidSequence)),
    };
    (item, rest.as_slice().len())
}

/// Decodes the item at the front of `bytes`, and says how many bytes it
/// consumed; `None` when `bytes` is empty.
pub fn decode_utf8_next(bytes: &[u8]) -> (r: (Option<Result<char, DecodeError>>, usize))
    ensures
        r.0 == checked_item(bytes@),
        r.1 == front_len(bytes@),
{
    assert(bytes@.skip(0) =~= bytes@);
    proof {
        if bytes@.len() > 0 {
            lemma_front_len_bounds(bytes@);
        }
    }
    let (item, rest) = utf8_decode_front(bytes, 0);
    let used = bytes.len() - rest;
    (reject_overlong(item, used), used)
}

/// Decodes all of `bytes`, one item per character or malformed sequence.
pub fn decode_utf8_all(bytes: &[u8]) -> (r: Vec<Result<char, DecodeError>>)
    ensures
        r@ == utf8_items(bytes@),
{
    let mut out: Vec<Result<char, DecodeError>> = Vec::new();
    let mut pos: usize = 0;
    assert(bytes@.skip(0) =~= bytes@);
    while pos < bytes.len()
        invariant
            pos <= bytes@.len(),
            utf8_items(bytes@) == out@ + utf8_items(bytes@.skip(pos as int)),
        decreases bytes@.len() - pos,
    {
        let ghost rest = bytes@.skip(pos as int);
        let ghost before = out@;
        proof {
            lemma_front_len_bounds(rest);
        }
        let (item, left) = utf8_decode_front(bytes, pos);
        let used = bytes.len() - pos - left;
        match reject_overlong(item, used) {
            Some(x) => {
                out.push(x);
            },
            None => {
                proof {
                    assert(false);
                }
            },
        }
        proof {
            assert(rest.skip(front_len(rest)) =~= bytes@.skip(pos + used));
            assert(utf8_items(rest) == seq![checked_item(rest).unwrap()] + utf8_items(
                rest.skip(front_len(rest)),
            ));
            assert(before + utf8_items(rest) =~= out@ + utf8_items(bytes@.skip(pos + used)));
        }
        pos = pos + used;
    }
    assert(bytes@.skip(pos as int) =~= Seq::<u8>::empty());
    assert(out@ + Seq::<Result<char, DecodeError>>::empty() =~= out@);
    out
}

/// Every character of `cs` as a successful item.
pub open spec fn all_ok(cs: Seq<char>) -> Seq<Result<char, DecodeError>> {
    cs.map_values(|c: char| Ok(c))
}

/// A well-formed character at the front decodes to itself and consumes
/// exactly its own bytes.
proof fn lemma_valid_front(s: Seq<u8>)
    requires
        valid_first_scalar(s),
    ensures
        front_item(s) == Some(Ok::<char, DecodeError>(decode_first_scalar(s) as char)),
        checked_item(s) == front_item(s),
        front_len(s) == length_of_first_scalar(s),
{
    let b0 = s[0];
    if b0 <= 0x7F {
        assert(((b0 & 0x7F) as u32) <= 0x7F) by (bit_vector);
    } else if b0 <= 0xDF {
        let b1 = s[1];
        assert(((((b0 & 0x1F) as u32) << 6) | ((b1 & 0x3F) as u32)) <= 0x7FF) by (bit_vector);
    } else if b0 <= 0xEF {
        let b1 = s[1];
        let b2 = s[2];
        assert(((((b0 & 0x0F) as u32) << 12) | (((b1 & 0x3F) as u32) << 6) | ((b2 & 0x3F) as u32))
            <= 0xFFFF) by (bit_vector);
    }
}

/// Decoding all of `s` yields the items of its front character followed by
/// the items of decoding the rest on its own: handing out one item at a time
/// agrees with decoding the whole input.
pub proof fn lemma_utf8_incremental(s: Seq<u8>)
    requires
        s.len() > 0,
    ensures
        checked_item(s) is Some,
        1 <= front_len(s) <= s.len(),
        utf8_items(s) == seq![checked_item(s).unwrap()] + utf8_items(s.skip(front_len(s))),
{
    lemma_front_len_bounds(s);
}

/// An item depends on at most the first four bytes of the input: decoding
/// from a window of the next four bytes, or of all that are left, gives the
/// same item and consumes the same bytes as decoding from the whole input.
pub proof fn lemma_utf8_window(s: Seq<u8>, n: int)
    requires
        0 <= n <= s.len(),
        n >= 4 || n == s.len(),
    ensures
        checked_item(s.take(n)) == checked_item(s),
        front_len(s.take(n)) == front_len(s),
{
    let t = s.take(n);
    assert(forall|i: int| 0 <= i < n ==> t[i] == s[i]);
    if n == s.len() {
        assert(t =~= s);
    } else if s.len() > 0 {
        assert(decode_first_codepoint(t) == decode_first_codepoint(s));
    }
}

/// Splitting the input after any well-formed UTF-8 prefix and decoding the
/// two parts apart gives the same items as decoding it whole.
pub proof fn lemma_utf8_split(a: Seq<u8>, b: Seq<u8>)
    requires
        valid_utf8(a),
    ensures
        utf8_items(a + b) == utf8_items(a) + utf8_items(b),
    decreases a.len(),
{
    if a.len() == 0 {
        assert(a + b =~= b);
        assert(utf8_items(a) + utf8_items(b) =~= utf8_items(b));
    } else {
        let ab = a + b;
        let w = length_of_first_scalar(a);
        assert(forall|i: int| 0 <= i < a.len() ==> ab[i] == a[i]);
        assert(valid_first_scalar(ab));
        assert(decode_first_codepoint(ab) == decode_first_codepoint(a));
        lemma_valid_front(a);
        lemma_valid_front(ab);
        let rest = pop_first_scalar(a);
        assert(rest =~= a.skip(w));
        assert(ab.skip(w) =~= rest + b);
        lemma_utf8_split(rest, b);
        assert(utf8_items(ab) =~= utf8_items(a) + utf8_items(b));
    }
}

/// Well-formed UTF-8 decodes without an error to exactly the characters it
/// encodes, and encoding those characters again gives the bytes back.
pub proof fn lemma_utf8_decode_encode(s: Seq<u8>)
    requires
        valid_utf8(s),
    ensures
        utf8_items(s) == all_ok(decode_utf8(s)),
        encode_utf8(decode_utf8(s)) == s,
    decreases s.len(),
{
    decode_utf8_encode_utf8(s);
    if s.len() > 0 {
        lemma_valid_front(s);
        let rest = pop_first_scalar(s);
        assert(rest =~= s.skip(front_len(s)));
        lemma_utf8_decode_encode(rest);
        assert(utf8_items(s) =~= all_ok(decode_utf8(s)));
    } else {
        assert(utf8_items(s) =~= all_ok(decode_utf8(s)));
    }
}

/// Encoding characters as UTF-8 and decoding the bytes gives every
/// character back, in order, with no error.
pub proof fn lemma_utf8_encode_decode(cs: Seq<char>)
    ensures
        utf8_items(encode_utf8(cs)) == all_ok(cs),
{
    encode_utf8_valid_utf8(cs);
    encode_utf8_decode_utf8(cs);
    lemma_utf8_decode_encode(encode_utf8(cs));
}

} // verus!
