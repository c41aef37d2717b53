//! Lower-case hexadecimal text of a byte sequence.

use vstd::prelude::*;
use vstd::utf8::{
    encode_utf8, encode_utf8_decode_utf8, encode_utf8_valid_utf8, is_ascii_chars,
    is_ascii_chars_encode_utf8,
};
use crate::metadata::text_from_utf8;

verus! {

/// The digit of a value below sixteen: `0` to `9`, then `a` to `f`.
pub open spec fn hex_digit(nibble: u8) -> char {
    if nibble < 10 {
        (0x30 + nibble) as u8 as char
    } else {
        (0x61 + (nibble - 10)) as u8 as char
    }
}

/// Two digits for each byte, the high half first.
pub open spec fn hex_text(bytes: Seq<u8>) -> Seq<char> {
    Seq::new(
        2 * bytes.len(),
        |i: int|
            if i % 2 == 0 {
                hex_digit(bytes[i / 2] / 16)
            } else {
                hex_digit(bytes[i / 2] % 16)
            },
    )
}

/// The digit of a value below sixteen, as a byte of ASCII.
fn digit(nibble: u8) -> (r: u8)
    requires
        nibble < 16,
    ensures
        r as char == hex_digit(nibble),
        r < 0x80,
{
    if nibble < 10 {
        0x30 + nibble
    } else {
        0x61 + (nibble - 10)
    }
}

/// Writes bytes as lower-case hexadecimal text.
pub fn hex_lower(bytes: &[u8]) -> (r: String)
    ensures
        r@ == hex_text(bytes@),
{
    let mut ascii: Vec<u8> = Vec::new();
    let mut i: usize = 0;
    while i < bytes.len()
        invariant
            i <= bytes@.len(),
            ascii@.len() == 2 * i,
            forall|j: int| 0 <= j < 2 * i ==> ascii@[j] as char == #[trigger] hex_text(bytes@)[j],
            forall|j: int| 0 <= j < 2 * i ==> #[trigger] ascii@[j] < 0x80,
        decreases bytes@.len() - i,
    {
        let byte = bytes[i];
        ascii.push(digit(byte / 16));
        ascii.push(digit(byte % 16));
        i += 1;
    }
    proof {
        let text = hex_text(bytes@);
        assert(is_ascii_chars(text)) by {
            assert forall|j: int| 0 <= j < text.len() implies '\0' <= #[trigger] text[j]
                <= '\u{7f}' by {
                assert(ascii@[j] as char == text[j]);
                assert(ascii@[j] < 0x80);
            }
        }
        is_ascii_chars_encode_utf8(text);
        assert(ascii@ =~= encode_utf8(text)) by {
            assert forall|j: int| 0 <= j < text.len() implies ascii@[j] == encode_utf8(text)[j] by {
                assert(ascii@[j] as char == text[j]);
                assert(text[j] as u8 == encode_utf8(text)[j]);
            }
        }
        encode_utf8_valid_utf8(text);
        encode_utf8_decode_utf8(text);
    }
    match text_from_utf8(ascii.as_slice()) {
        Some(text) => text,
        None => String::new(),
    }
}

} // verus!
