//! Percent-encoding of text that goes into an address.
//!
//! The text is taken as its UTF-8 bytes. A byte that stands for a letter, a digit
//! or one of `-`, `.`, `_`, `~` is written as that character; every other byte is
//! written as `%` and its two hexadecimal digits, in upper case.

use vstd::prelude::*;
use vstd::utf8::encode_utf8;

verus! {

/// The upper-case letters, in the order of their bytes.
pub const UPPER: &'static str = "ABCDEFGHIJKLMNOPQRSTUVWXYZ";

/// The lower-case letters, in the order of their bytes.
pub const LOWER: &'static str = "abcdefghijklmnopqrstuvwxyz";

/// The hexadecimal digits, in the order of their values.
pub const HEX_DIGITS: &'static str = "0123456789ABCDEF";

/// Whether a byte is written as it stands: letters, digits, `-`, `.`, `_`, `~`.
pub open spec fn is_unreserved(byte: u8) -> bool {
    ||| 0x41 <= byte <= 0x5A
    ||| 0x61 <= byte <= 0x7A
    ||| 0x30 <= byte <= 0x39
    ||| byte == 0x2D
    ||| byte == 0x2E
    ||| byte == 0x5F
    ||| byte == 0x7E
}

/// What one byte is written as.
pub open spec fn encoded_byte(byte: u8) -> Seq<char> {
    if is_unreserved(byte) {
        seq![byte as char]
    } else {
        seq!['%', HEX_DIGITS@[byte as int / 16], HEX_DIGITS@[byte as int % 16]]
    }
}

/// What a sequence of bytes is written as: each byte in its turn.
pub open spec fn percent_encoded(bytes: Seq<u8>) -> Seq<char>
    decreases bytes.len(),
{
    if bytes.len() == 0 {
        Seq::empty()
    } else {
        percent_encoded(bytes.drop_last()) + encoded_byte(bytes.last())
    }
}

/// What a text is written as in an address: its UTF-8 bytes, percent-encoded.
pub open spec fn encoded_text(text: Seq<char>) -> Seq<char> {
    percent_encoded(encode_utf8(text))
}

fn is_unreserved_byte(byte: u8) -> (yes: bool)
    ensures
        yes == is_unreserved(byte),
{
    (0x41 <= byte && byte <= 0x5A) || (0x61 <= byte && byte <= 0x7A) || (0x30 <= byte && byte
        <= 0x39) || byte == 0x2D || byte == 0x2E || byte == 0x5F || byte == 0x7E
}

fn hex_digit_text(digit: u8) -> (text: &'static str)
    requires
        digit < 16,
    ensures
        text@ == seq![HEX_DIGITS@[digit as int]],
{
    proof {
        reveal_strlit("0123456789ABCDEF");
    }
    let at = digit as usize;
    let text = HEX_DIGITS.substring_ascii(at, at + 1);
    assert(text@ =~= seq![HEX_DIGITS@[digit as int]]);
    text
}

fn unreserved_text(byte: u8) -> (text: &'static str)
    requires
        is_unreserved(byte),
    ensures
        text@ == seq![byte as char],
{
    proof {
        reveal_strlit("ABCDEFGHIJKLMNOPQRSTUVWXYZ");
        reveal_strlit("abcdefghijklmnopqrstuvwxyz");
        reveal_strlit("0123456789ABCDEF");
        reveal_strlit("-");
        reveal_strlit(".");
        reveal_strlit("_");
        reveal_strlit("~");
    }
    if 0x41 <= byte && byte <= 0x5A {
        let at = (byte - 0x41) as usize;
        let text = UPPER.substring_ascii(at, at + 1);
        assert(text@ =~= seq![byte as char]);
        text
    } else if 0x61 <= byte && byte <= 0x7A {
        let at = (byte - 0x61) as usize;
        let text = LOWER.substring_ascii(at, at + 1);
        assert(text@ =~= seq![byte as char]);
        text
    } else if 0x30 <= byte && byte <= 0x39 {
        let at = (byte - 0x30) as usize;
        let text = HEX_DIGITS.substring_ascii(at, at + 1);
        assert(text@ =~= seq![byte as char]);
        text
    } else if byte == 0x2D {
        assert("-"@ =~= seq![byte as char]);
        "-"
    } else if byte == 0x2E {
        assert("."@ =~= seq![byte as char]);
        "."
    } else if byte == 0x5F {
        assert("_"@ =~= seq![byte as char]);
        "_"
    } else {
        assert("~"@ =~= seq![byte as char]);
        "~"
    }
}

/// Percent-encodes `text`.
pub fn encode_text(text: &str) -> (encoded: String)
    ensures
        encoded@ == encoded_text(text@),
{
    let bytes = text.as_bytes();
    let mut encoded = String::new();
    let mut i: usize = 0;
    while i < bytes.len()
        invariant
            i <= bytes.len(),
            bytes@ == encode_utf8(text@),
            encoded@ == percent_encoded(bytes@.take(i as int)),
        decreases bytes.len() - i,
    {
        let byte = bytes[i];
        let ghost before = encoded@;
        if is_unreserved_byte(byte) {
            encoded.append(unreserved_text(byte));
        } else {
            encoded.append("%");
            encoded.append(hex_digit_text(byte / 16));
            encoded.append(hex_digit_text(byte % 16));
            proof {
                reveal_strlit("%");
                assert(encoded@ =~= before + encoded_byte(byte));
            }
        }
        proof {
            let next = bytes@.take(i + 1);
            assert(next.drop_last() =~= bytes@.take(i as int));
            assert(next.last() == byte);
        }
        i += 1;
    }
    proof {
        assert(bytes@.take(bytes@.len() as int) =~= bytes@);
    }
    encoded
}

} // verus!
