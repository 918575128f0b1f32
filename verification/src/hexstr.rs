//! Hexadecimal decoding of the command-line inputs.

use vstd::prelude::*;

verus! {

/// An ASCII hexadecimal digit, either case.
pub open spec fn is_hex_digit(c: char) -> bool {
    let v = c as u32;
    (('0' as u32) <= v && v <= ('9' as u32)) || (('a' as u32) <= v && v <= ('f' as u32)) || ((
    'A' as u32) <= v && v <= ('F' as u32))
}

/// The value of one hexadecimal digit.
pub open spec fn hex_digit_val(c: char) -> u8
    recommends
        is_hex_digit(c),
{
    let v = c as u32;
    if ('0' as u32) <= v && v <= ('9' as u32) {
        (v - ('0' as u32)) as u8
    } else if ('a' as u32) <= v && v <= ('f' as u32) {
        (v - ('a' as u32) + 10) as u8
    } else {
        (v - ('A' as u32) + 10) as u8
    }
}

/// A decodable hex string: even length, every character a hex digit.
pub open spec fn is_hex_string(s: Seq<char>) -> bool {
    s.len() % 2 == 0 && (forall|i: int| 0 <= i < s.len() ==> is_hex_digit(#[trigger] s[i]))
}

/// The bytes a hex string spells: each pair of digits one byte, high digit
/// first.
pub open spec fn hex_decoded(s: Seq<char>) -> Seq<u8>
    recommends
        is_hex_string(s),
{
    Seq::new(
        s.len() / 2,
        |i: int| ((hex_digit_val(s[2 * i]) as int) * 16 + (hex_digit_val(s[2 * i + 1]) as int)) as u8,
    )
}

/// Relies on hex's `decode`: it accepts exactly the even-length strings of
/// ASCII hex digits (either case) and returns the bytes they spell, one byte
/// per digit pair with the high digit first; anything else is rejected.
#[verifier::external_body]
pub(crate) fn decode_hex(s: &str) -> (r: Result<Vec<u8>, String>)
    ensures
        r is Ok <==> is_hex_string(s@),
        r matches Ok(v) ==> v@ == hex_decoded(s@),
{
    hex::decode(s).map_err(|e| e.to_string())
}

} // verus!
