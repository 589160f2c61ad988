//! The session token: 16 bytes, which the receiver hands out as 32
//! hexadecimal digits.

use vstd::prelude::*;
use vstd::utf8::*;

verus! {

/// The bytes of a session token, where there is one.
pub open spec fn token_view(token: Option<[u8; 16]>) -> Option<Seq<u8>> {
    match token {
        Some(bytes) => Some(bytes@),
        None => None,
    }
}

/// Whether a character code is that of a hexadecimal digit, of either case.
pub open spec fn is_hex_code(c: int) -> bool {
    ||| 0x30 <= c <= 0x39
    ||| 0x41 <= c <= 0x46
    ||| 0x61 <= c <= 0x66
}

/// The number that a hexadecimal digit stands for.
pub open spec fn hex_code_value(c: int) -> int {
    if 0x30 <= c <= 0x39 {
        c - 0x30
    } else if 0x41 <= c <= 0x46 {
        c - 0x41 + 10
    } else {
        c - 0x61 + 10
    }
}

/// The byte that two hexadecimal digits stand for, the first being the upper half.
pub open spec fn hex_pair(upper: int, lower: int) -> u8 {
    (16 * hex_code_value(upper) + hex_code_value(lower)) as u8
}

/// Whether a run of bytes is hexadecimal text: digits only, and an even number of them.
pub open spec fn is_hex_text(data: Seq<u8>) -> bool {
    &&& data.len() % 2 == 0
    &&& forall|i: int| 0 <= i < data.len() ==> is_hex_code(#[trigger] data[i] as int)
}

/// The bytes that hexadecimal text stands for: one for each pair of digits.
pub open spec fn hex_bytes(data: Seq<u8>) -> Seq<u8> {
    Seq::new(data.len() / 2, |i: int| hex_pair(data[2 * i] as int, data[2 * i + 1] as int))
}

/// Whether a string is the text of a token: exactly 32 hexadecimal digits.
pub open spec fn is_token_text(text: Seq<char>) -> bool {
    &&& text.len() == 32
    &&& forall|i: int| 0 <= i < text.len() ==> is_hex_code(#[trigger] text[i] as int)
}

/// The 16 bytes that the text of a token stands for.
pub open spec fn token_bytes(text: Seq<char>) -> Seq<u8> {
    Seq::new(16, |i: int| hex_pair(text[2 * i] as int, text[2 * i + 1] as int))
}

/// The token that a string from the receiver gives, where it gives one.
pub open spec fn token_of(text: Seq<char>) -> Option<Seq<u8>> {
    if is_token_text(text) {
        Some(token_bytes(text))
    } else {
        None
    }
}

/// `hex::FromHexError`, which says why `hex::decode` failed. It is carried
/// through unread.
#[verifier::external_type_specification]
#[verifier::external_body]
pub struct ExFromHexError(hex::FromHexError);

/// Calls `hex::decode` on a run of bytes.
///
/// Not proved, but taken from that function's source: it succeeds exactly on
/// an even number of bytes that are all hexadecimal digits of either case, and
/// then gives one byte for each pair, the first digit of a pair being the
/// upper half.
#[verifier::external_body]
fn hex_decode(data: &[u8]) -> (decoded: Result<Vec<u8>, hex::FromHexError>)
    ensures
        decoded is Ok <==> is_hex_text(data@),
        decoded matches Ok(bytes) ==> bytes@ == hex_bytes(data@),
{
    hex::decode(data)
}

/// A character is its code: widening it to 32 bits loses nothing.
proof fn lemma_char_code(c: char)
    ensures
        c as u32 == c as int,
{
}

/// A character outside ASCII leaves a byte of 0x80 or more in the UTF-8 form
/// of the text that holds it.
proof fn lemma_non_ascii_has_high_byte(chars: Seq<char>)
    requires
        !is_ascii_chars(chars),
    ensures
        exists|j: int|
            0 <= j < encode_utf8(chars).len() && #[trigger] encode_utf8(chars)[j] >= 0x80,
    decreases chars.len(),
{
    let c0 = chars[0] as u32;
    let head = encode_scalar(c0);
    let rest = chars.drop_first();
    let all = encode_utf8(chars);
    lemma_char_code(chars[0]);
    if chars[0] > '\u{7f}' {
        assert(0xC0u8 | ((c0 >> 6) & 0x1F) as u8 >= 0x80) by (bit_vector);
        assert(0xE0u8 | ((c0 >> 12) & 0x0F) as u8 >= 0x80) by (bit_vector);
        assert(0xF0u8 | ((c0 >> 18) & 0x7) as u8 >= 0x80) by (bit_vector);
        assert(all[0] == head[0]);
    } else {
        if is_ascii_chars(rest) {
            assert forall|i: int| 0 <= i < chars.len() implies '\0' <= #[trigger] chars[i]
                <= '\u{7f}' by {
                if i > 0 {
                    assert(chars[i] == rest[i - 1]);
                }
            }
        }
        lemma_non_ascii_has_high_byte(rest);
        let j = choose|j: int|
            0 <= j < encode_utf8(rest).len() && #[trigger] encode_utf8(rest)[j] >= 0x80;
        assert(all[head.len() + j] == encode_utf8(rest)[j]);
    }
}

/// Reads a token from the string that the receiver sent.
///
/// The string must be exactly 32 hexadecimal digits, of either case. Each pair
/// of digits gives one byte of the token.
pub fn decode_token(text: &str) -> (token: Option<[u8; 16]>)
    ensures
        token_view(token) == token_of(text@),
{
    let data = text.as_bytes();
    proof {
        if is_ascii_chars(text@) {
            is_ascii_chars_encode_utf8(text@);
        } else {
            lemma_non_ascii_has_high_byte(text@);
        }
    }
    match hex_decode(data) {
        Ok(bytes) => {
            if bytes.len() == 16 {
                let mut token = [0u8; 16];
                let mut i: usize = 0;
                while i < 16
                    invariant
                        i <= 16,
                        bytes@.len() == 16,
                        forall|k: int| 0 <= k < i ==> token@[k] == bytes@[k],
                    decreases 16 - i,
                {
                    token[i] = bytes[i];
                    i += 1;
                }
                Some(token)
            } else {
                None
            }
        },
        Err(_) => None,
    }
}

/// A string gives a token exactly when it is 32 hexadecimal digits, and the
/// token then has 16 bytes. A string of any other length gives none, and
/// neither does one that holds any other character.
pub proof fn token_text_is_strict(text: Seq<char>)
    ensures
        token_of(text) is Some <==> is_token_text(text),
        token_of(text) matches Some(token) ==> token.len() == 16,
        text.len() != 32 ==> token_of(text) is None,
        (exists|i: int| 0 <= i < text.len() && !is_hex_code(#[trigger] text[i] as int))
            ==> token_of(text) is None,
{
}

} // verus!
