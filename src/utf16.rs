//! UTF-16 code units: splitting a scalar value into them and joining a
//! surrogate pair back into one scalar value.
use vstd::prelude::*;
use vstd::utf8::is_scalar;

verus! {

/// True when `u` lies in the UTF-16 surrogate range.
pub open spec fn is_surrogate(u: u16) -> bool {
    0xD800 <= u <= 0xDFFF
}

/// True when `u` is a leading (high) surrogate.
pub open spec fn is_lead_surrogate(u: u16) -> bool {
    0xD800 <= u <= 0xDBFF
}

/// True when `u` is a trailing (low) surrogate.
pub open spec fn is_trail_surrogate(u: u16) -> bool {
    0xDC00 <= u <= 0xDFFF
}

/// The scalar value that a leading and a trailing surrogate stand for.
pub open spec fn pair_value(lead: u16, trail: u16) -> int {
    (lead - 0xD800) * 0x400 + (trail - 0xDC00) + 0x10000
}

/// The UTF-16 code units of a scalar value: one unit below U+10000, a
/// surrogate pair above.
pub open spec fn utf16_of(v: u32) -> Seq<u16> {
    if v < 0x10000 {
        seq![v as u16]
    } else {
        seq![
            (0xD800 + (v - 0x10000) / 0x400) as u16,
            (0xDC00 + (v - 0x10000) % 0x400) as u16,
        ]
    }
}

/// Relies on `char::from_u32`: it returns `Some` exactly for Unicode scalar
/// values, holding that value.
#[verifier::external_body]
fn char_of_scalar(v: u32) -> (r: Option<char>)
    ensures
        r is Some <==> is_scalar(v),
        r matches Some(c) ==> c as u32 == v,
{
    char::from_u32(v)
}

/// The character whose scalar value is `v`, or `None` when `v` is not a
/// Unicode scalar value (a surrogate, or above U+10FFFF).
pub fn scalar_char(v: u32) -> (r: Option<char>)
    ensures
        r is Some <==> is_scalar(v),
        r matches Some(c) ==> c as u32 == v,
{
    char_of_scalar(v)
}

/// The UTF-16 code units of `c`, as the codepage conversion service takes them.
pub fn utf16_units(c: char) -> (r: Vec<u16>)
    ensures
        r@ == utf16_of(c as u32),
        1 <= r@.len() <= 2,
{
    let v = c as u32;
    if v < 0x10000 {
        vec![v as u16]
    } else {
        proof {
            vstd::utf8::char_is_scalar(c);
        }
        let w: u32 = v - 0x10000;
        vec![(0xD800 + w / 0x400) as u16, (0xDC00 + w % 0x400) as u16]
    }
}

/// Joins a leading and a trailing surrogate into the character they encode.
pub fn join_surrogates(lead: u16, trail: u16) -> (r: char)
    requires
        is_lead_surrogate(lead),
        is_trail_surrogate(trail),
    ensures
        r as u32 == pair_value(lead, trail),
{
    let v: u32 = ((lead - 0xD800) as u32) * 0x400 + ((trail - 0xDC00) as u32) + 0x10000;
    let r = char_of_scalar(v);
    match r {
        Some(c) => c,
        None => {
            proof {
                assert(false);
            }
            ' '
        },
    }
}

/// Splitting a character into UTF-16 code units and joining them again gives
/// the character back: one unit holds the value itself, a pair holds a
/// leading and a trailing surrogate that join to it.
pub proof fn lemma_utf16_round_trip(c: char)
    ensures
        (c as u32) < 0x10000 ==> utf16_of(c as u32) =~= seq![c as u16] && !is_surrogate(
            c as u16,
        ) && (c as u16) as u32 == c as u32,
        (c as u32) >= 0x10000 ==> {
            let u = utf16_of(c as u32);
            &&& u.len() == 2
            &&& is_lead_surrogate(u[0])
            &&& is_trail_surrogate(u[1])
            &&& pair_value(u[0], u[1]) == c as u32
        },
{
    vstd::utf8::char_is_scalar(c);
}

} // verus!
