use vstd::prelude::*;
use vstd::string::StringSliceAdditionalSpecFns;
use vstd::utf8::{encode_scalar, encode_utf8};

use crate::error::HexError;

verus! {

/// Whether a byte is the ASCII code of a hexadecimal digit,
/// in either letter case.
pub open spec fn is_hex_digit(b: u8) -> bool {
    (0x30 <= b && b <= 0x39) || (0x61 <= b && b <= 0x66) || (0x41 <= b && b <= 0x46)
}

/// The numeric value of the hexadecimal digit whose ASCII code is `b`.
pub open spec fn hex_digit_value(b: u8) -> nat
    recommends
        is_hex_digit(b),
{
    if 0x30 <= b && b <= 0x39 {
        (b - 0x30) as nat
    } else if 0x61 <= b && b <= 0x66 {
        (b - 0x61 + 10) as nat
    } else {
        (b - 0x41 + 10) as nat
    }
}

/// Whether every byte of `s` is the ASCII code of a hexadecimal digit.
pub open spec fn all_hex_digits(s: Seq<u8>) -> bool {
    forall|i: int| 0 <= i < s.len() ==> is_hex_digit(#[trigger] s[i])
}

/// The bytes that a sequence of hexadecimal digits encodes,
/// two digits per byte, high nibble first.
pub open spec fn hex_decoded(s: Seq<u8>) -> Seq<u8>
    recommends
        s.len() % 2 == 0,
        all_hex_digits(s),
{
    Seq::new(s.len() / 2, |i: int| (hex_digit_value(s[2 * i]) * 16 + hex_digit_value(
        s[2 * i + 1],
    )) as u8)
}

/// Whether the byte sequence of a string starts with the two ASCII bytes `0x`.
pub open spec fn has_hex_prefix(s: Seq<u8>) -> bool {
    s.len() >= 2 && s[0] == 0x30u8 && s[1] == 0x78u8
}

/// Whether the character sequence of a string starts with `0x`.
pub open spec fn has_char_hex_prefix(cs: Seq<char>) -> bool {
    cs.len() >= 2 && cs[0] == '0' && cs[1] == 'x'
}

/// Whether a whole string is a well-formed `0x`-prefixed hexadecimal
/// encoding: the prefix, then an even number of hexadecimal digits.
pub open spec fn is_prefix_hex(s: Seq<u8>) -> bool {
    has_hex_prefix(s) && (s.len() - 2) % 2 == 0 && all_hex_digits(s.skip(2))
}

/// Whether `e` is the error that decoding the string with characters
/// `cs` as `0x`-prefixed hexadecimal must report.
pub open spec fn hex_error_spec(cs: Seq<char>, e: HexError) -> bool {
    match e {
        HexError::InvalidStringLength => cs.len() < 2,
        HexError::InvalidPrefix { c0, c1 } => cs.len() >= 2 && !has_char_hex_prefix(cs) && c0
            == cs[0] && c1 == cs[1],
        HexError::OddLength => has_char_hex_prefix(cs) && (encode_utf8(cs).len() - 2) % 2 != 0,
        HexError::InvalidHexCharacter { c, index } => ({
            let digits = encode_utf8(cs).skip(2);
            has_char_hex_prefix(cs) && digits.len() % 2 == 0 && index < digits.len()
                && all_hex_digits(digits.take(index as int)) && !is_hex_digit(
                digits[index as int],
            ) && c == digits[index as int] as char
        }),
    }
}

proof fn lemma_char_prefix_gives_byte_prefix(cs: Seq<char>)
    requires
        has_char_hex_prefix(cs),
    ensures
        has_hex_prefix(encode_utf8(cs)),
{
    let rest = cs.drop_first();
    assert(encode_utf8(cs) == encode_scalar(cs[0] as u32) + encode_utf8(rest));
    assert('0' as u32 == 0x30);
    assert('x' as u32 == 0x78);
    assert(0x30u32 & 0x7F == 0x30u32) by (bit_vector);
    assert(0x78u32 & 0x7F == 0x78u32) by (bit_vector);
    assert(encode_scalar('0' as u32) =~= seq![0x30u8]);
    assert(rest[0] == 'x');
    assert(encode_utf8(rest) == encode_scalar(rest[0] as u32) + encode_utf8(rest.drop_first()));
    assert(encode_scalar('x' as u32) =~= seq![0x78u8]);
}

/// Relies on `prefix_hex::decode` for `Vec<u8>`: on a string that
/// carries the `0x` prefix it decodes the remaining hexadecimal
/// digits, two per byte, high nibble first; it reports an odd number
/// of digits, or else the first byte that is not a hexadecimal digit,
/// with its position among the digits. The prefix is required to be
/// present, so that the call never reaches the pair of character
/// reads in the crate's missing-prefix path, whose second `unwrap`
/// can panic on a string of one multi-byte character.
#[verifier::external_body]
fn decode_after_prefix(s: &str) -> (r: Result<Vec<u8>, HexError>)
    requires
        has_hex_prefix(s.spec_bytes()),
    ensures
        (match r {
            Ok(v) => is_prefix_hex(s.spec_bytes()) && v@ == hex_decoded(s.spec_bytes().skip(2)),
            Err(e) => (match e {
                HexError::OddLength => (s.spec_bytes().len() - 2) % 2 != 0,
                HexError::InvalidHexCharacter { c, index } => ({
                    let digits = s.spec_bytes().skip(2);
                    digits.len() % 2 == 0 && index < digits.len() && all_hex_digits(
                        digits.take(index as int),
                    ) && !is_hex_digit(digits[index as int]) && c == digits[index as int] as char
                }),
                _ => false,
            }),
        }),
{
    match prefix_hex::decode::<Vec<u8>>(s) {
        Ok(v) => Ok(v),
        Err(prefix_hex::Error::InvalidPrefix { c0, c1 }) => Err(HexError::InvalidPrefix { c0, c1 }),
        Err(prefix_hex::Error::InvalidHexCharacter { c, index }) => Err(
            HexError::InvalidHexCharacter { c, index },
        ),
        Err(prefix_hex::Error::InvalidStringLength) => Err(HexError::InvalidStringLength),
        Err(prefix_hex::Error::InvalidStringLengthSlice { expected: _, actual: _ }) => Err(
            HexError::InvalidStringLength,
        ),
        Err(prefix_hex::Error::OddLength) => Err(HexError::OddLength),
    }
}

/// Decodes a `0x`-prefixed hexadecimal string into its bytes: the
/// mandatory prefix is checked character by character, and the digits
/// after it are decoded two per byte, high nibble first.
pub fn decode_prefix_hex(s: &str) -> (r: Result<Vec<u8>, HexError>)
    ensures
        (match r {
            Ok(v) => is_prefix_hex(s.spec_bytes()) && v@ == hex_decoded(s.spec_bytes().skip(2)),
            Err(e) => hex_error_spec(s@, e),
        }),
{
    broadcast use vstd::string::axiom_spec_iter, vstd::string::next_postcondition;

    let mut it = s.chars();
    let first = it.next();
    let second = it.next();
    match (first, second) {
        (Some(c0), Some(c1)) => {
            if c0 == '0' && c1 == 'x' {
                proof {
                    lemma_char_prefix_gives_byte_prefix(s@);
                }
                decode_after_prefix(s)
            } else {
                Err(HexError::InvalidPrefix { c0, c1 })
            }
        },
        _ => Err(HexError::InvalidStringLength),
    }
}

} // verus!
