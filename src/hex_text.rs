//! Hexadecimal text: the rules that hex decoders and encoders follow, and
//! the calls into the `hex` and `alloy-primitives` crates.

use vstd::prelude::*;
use vstd::string::StringSliceAdditionalSpecFns;

verus! {

pub open spec fn is_hex_digit(c: u8) -> bool {
    (48 <= c <= 57) || (65 <= c <= 70) || (97 <= c <= 102)
}

/// The value of a hex digit.
pub open spec fn hex_digit_value(c: u8) -> int {
    if 48 <= c <= 57 {
        c - 48
    } else if 65 <= c <= 70 {
        c - 55
    } else {
        c - 87
    }
}

/// Text that decodes: an even number of hex digits of either case.
pub open spec fn hex_valid(s: Seq<u8>) -> bool {
    &&& s.len() % 2 == 0
    &&& forall|i: int| 0 <= i < s.len() ==> is_hex_digit(#[trigger] s[i])
}

/// The bytes that valid hex text spells, two digits each, high digit first.
pub open spec fn hex_decoded(s: Seq<u8>) -> Seq<u8> {
    Seq::new(
        s.len() / 2,
        |i: int| (hex_digit_value(s[2 * i]) * 16 + hex_digit_value(s[2 * i + 1])) as u8,
    )
}

/// The lowercase digit for a value below 16.
pub open spec fn lower_digit(n: int) -> char {
    if n < 10 {
        ((48 + n) as u8) as char
    } else {
        ((87 + n) as u8) as char
    }
}

/// Lowercase hex text of `b`, two digits per byte, high digit first.
pub open spec fn hex_lower(b: Seq<u8>) -> Seq<char> {
    Seq::new(
        2 * b.len(),
        |i: int|
            if i % 2 == 0 {
                lower_digit(b[i / 2] as int / 16)
            } else {
                lower_digit(b[i / 2] as int % 16)
            },
    )
}

/// `s` without a leading `0x` or `0X`.
pub open spec fn strip_0x(s: Seq<u8>) -> Seq<u8> {
    if s.len() >= 2 && s[0] == 48 && (s[1] == 120 || s[1] == 88) {
        s.subrange(2, s.len() as int)
    } else {
        s
    }
}

/// Relies on `hex::decode`: it fails on text of odd length or with a byte
/// that is not a hex digit, and otherwise returns the bytes spelled.
#[verifier::external_body]
pub(crate) fn hex_decode(text: &str) -> (r: Option<Vec<u8>>)
    ensures
        r is Some <==> hex_valid(text.spec_bytes()),
        r matches Some(v) ==> v@ == hex_decoded(text.spec_bytes()),
{
    hex::decode(text).ok()
}

/// Relies on `hex::encode`: lowercase hex, two digits per byte.
#[verifier::external_body]
pub(crate) fn hex_encode(data: &[u8]) -> (r: String)
    ensures
        r@ == hex_lower(data@),
{
    hex::encode(data)
}

/// Relies on `alloy_primitives::Address`'s `FromStr`: after an optional `0x`
/// or `0X`, exactly 40 hex digits of either case, giving the 20 bytes they
/// spell.
#[verifier::external_body]
pub(crate) fn parse_address(text: &str) -> (r: Option<[u8; 20]>)
    ensures
        r is Some <==> (hex_valid(strip_0x(text.spec_bytes())) && strip_0x(text.spec_bytes()).len()
            == 40),
        r matches Some(a) ==> a@ == hex_decoded(strip_0x(text.spec_bytes())),
{
    text.parse::<alloy_primitives::Address>().ok().map(|a| a.0 .0)
}

} // verus!
