//! Percent-encoding of keys and values: every byte of the UTF-8 form of a
//! text that is not an unreserved character is written as `%` and two
//! hexadecimal digits.

use vstd::prelude::*;
use vstd::string::StringSliceAdditionalSpecFns;
use vstd::utf8::{
    decode_utf8,
    encode_utf8,
    encode_utf8_decode_utf8,
    is_ascii_chars,
    is_ascii_chars_encode_utf8,
};

verus! {

/// The bytes that are written as they are: the letters and digits of ASCII
/// and `-`, `.`, `_`, `~`.
pub open spec fn is_unreserved(byte: u8) -> bool {
    ||| 0x41 <= byte <= 0x5a
    ||| 0x61 <= byte <= 0x7a
    ||| 0x30 <= byte <= 0x39
    ||| byte == 0x2d
    ||| byte == 0x2e
    ||| byte == 0x5f
    ||| byte == 0x7e
}

/// The hexadecimal digit, in upper case, of a number below 16.
pub open spec fn hex_digit(n: int) -> char {
    if n == 0 {
        '0'
    } else if n == 1 {
        '1'
    } else if n == 2 {
        '2'
    } else if n == 3 {
        '3'
    } else if n == 4 {
        '4'
    } else if n == 5 {
        '5'
    } else if n == 6 {
        '6'
    } else if n == 7 {
        '7'
    } else if n == 8 {
        '8'
    } else if n == 9 {
        '9'
    } else if n == 10 {
        'A'
    } else if n == 11 {
        'B'
    } else if n == 12 {
        'C'
    } else if n == 13 {
        'D'
    } else if n == 14 {
        'E'
    } else {
        'F'
    }
}

/// The number that a hexadecimal digit of either case stands for, or -1 for
/// any other character.
pub open spec fn hex_value(c: char) -> int {
    if '0' <= c <= '9' {
        c as int - 0x30
    } else if 'A' <= c <= 'F' {
        c as int - 0x41 + 10
    } else if 'a' <= c <= 'f' {
        c as int - 0x61 + 10
    } else {
        -1
    }
}

/// One byte as it is written: itself where it is unreserved, else `%` and
/// its two hexadecimal digits.
pub open spec fn escaped_byte(byte: u8) -> Seq<char> {
    if is_unreserved(byte) {
        seq![byte as char]
    } else {
        seq!['%', hex_digit(byte as int / 16), hex_digit(byte as int % 16)]
    }
}

/// Bytes as they are written, one after the other.
pub open spec fn escaped_bytes(bytes: Seq<u8>) -> Seq<char>
    decreases bytes.len(),
{
    if bytes.len() == 0 {
        Seq::empty()
    } else {
        escaped_byte(bytes[0]) + escaped_bytes(bytes.drop_first())
    }
}

/// The percent-encoded form of a text.
pub open spec fn escaped(text: Seq<char>) -> Seq<char> {
    escaped_bytes(encode_utf8(text))
}

/// The bytes that a percent-encoded text stands for: `%` and two
/// hexadecimal digits give the byte with that number, any other character
/// its own.
pub open spec fn unescaped_bytes(text: Seq<char>) -> Seq<u8>
    decreases text.len(),
{
    if text.len() == 0 {
        Seq::empty()
    } else if text[0] == '%' && text.len() >= 3 && hex_value(text[1]) >= 0 && hex_value(text[2])
        >= 0 {
        seq![(16 * hex_value(text[1]) + hex_value(text[2])) as u8] + unescaped_bytes(text.skip(3))
    } else {
        seq![text[0] as u8] + unescaped_bytes(text.skip(1))
    }
}

/// The text that a percent-encoded text stands for.
pub open spec fn unescaped(text: Seq<char>) -> Seq<char> {
    decode_utf8(unescaped_bytes(text))
}

/// Whether a character can stand in a percent-encoded text: an unreserved
/// one, `%`, or a hexadecimal digit.
pub open spec fn is_escape_char(c: char) -> bool {
    c == '%' || (c as int) < 128 && is_unreserved(c as u8)
}

/// Bytes written after more bytes are the two writings joined.
pub proof fn lemma_escaped_bytes_push(bytes: Seq<u8>, byte: u8)
    ensures
        escaped_bytes(bytes.push(byte)) == escaped_bytes(bytes) + escaped_byte(byte),
    decreases bytes.len(),
{
    let all = bytes.push(byte);
    if bytes.len() == 0 {
        assert(all.drop_first() =~= Seq::<u8>::empty());
        assert(all[0] == byte);
        assert(escaped_bytes(all.drop_first()) =~= Seq::<char>::empty());
        assert(escaped_bytes(all) =~= escaped_byte(byte));
        assert(escaped_bytes(bytes) + escaped_byte(byte) =~= escaped_byte(byte));
    } else {
        assert(all.drop_first() =~= bytes.drop_first().push(byte));
        lemma_escaped_bytes_push(bytes.drop_first(), byte);
        assert(escaped_bytes(all) =~= escaped_bytes(bytes) + escaped_byte(byte));
    }
}

proof fn lemma_hex_digit(n: int)
    requires
        0 <= n < 16,
    ensures
        hex_value(hex_digit(n)) == n,
        is_escape_char(hex_digit(n)),
{
}

proof fn lemma_escaped_byte(byte: u8)
    ensures
        forall|i: int| 0 <= i < escaped_byte(byte).len() ==> is_escape_char(
            #[trigger] escaped_byte(byte)[i],
        ),
        forall|rest: Seq<char>| #[trigger]
            unescaped_bytes(escaped_byte(byte) + rest) == seq![byte] + unescaped_bytes(rest),
{
    let high = byte as int / 16;
    let low = byte as int % 16;
    lemma_hex_digit(high);
    lemma_hex_digit(low);
    assert forall|rest: Seq<char>| #[trigger]
        unescaped_bytes(escaped_byte(byte) + rest) == seq![byte] + unescaped_bytes(rest) by {
        let text = escaped_byte(byte) + rest;
        if is_unreserved(byte) {
            assert(text[0] == byte as char);
            assert(text[0] as u8 == byte);
            assert(text.skip(1) =~= rest);
        } else {
            assert(text[0] == '%');
            assert(text[1] == hex_digit(high));
            assert(text[2] == hex_digit(low));
            assert(text.skip(3) =~= rest);
            assert((16 * high + low) as u8 == byte);
        }
    }
}

/// What is written holds only unreserved characters, `%` and hexadecimal
/// digits, and stands for the bytes that were written.
pub proof fn lemma_escaped_bytes(bytes: Seq<u8>)
    ensures
        forall|i: int| 0 <= i < escaped_bytes(bytes).len() ==> is_escape_char(
            #[trigger] escaped_bytes(bytes)[i],
        ),
        unescaped_bytes(escaped_bytes(bytes)) == bytes,
    decreases bytes.len(),
{
    if bytes.len() > 0 {
        let rest = escaped_bytes(bytes.drop_first());
        lemma_escaped_bytes(bytes.drop_first());
        lemma_escaped_byte(bytes[0]);
        assert(unescaped_bytes(escaped_byte(bytes[0]) + rest) == seq![bytes[0]]
            + unescaped_bytes(rest));
        assert(seq![bytes[0]] + bytes.drop_first() =~= bytes);
        assert forall|i: int| 0 <= i < escaped_bytes(bytes).len() implies is_escape_char(
            #[trigger] escaped_bytes(bytes)[i],
        ) by {
            let head = escaped_byte(bytes[0]);
            if i < head.len() {
                assert(escaped_bytes(bytes)[i] == head[i]);
            } else {
                assert(escaped_bytes(bytes)[i] == rest[i - head.len()]);
            }
        }
    }
}

/// Reading a percent-encoded text gives back the text that was encoded,
/// whatever it holds.
pub proof fn lemma_unescaped_inverts_escaped(text: Seq<char>)
    ensures
        unescaped(escaped(text)) == text,
        forall|i: int| 0 <= i < escaped(text).len() ==> is_escape_char(#[trigger] escaped(text)[i]),
{
    lemma_escaped_bytes(encode_utf8(text));
    encode_utf8_decode_utf8(text);
}

/// Whether a text holds unreserved characters only.
pub open spec fn is_plain(text: Seq<char>) -> bool {
    forall|i: int|
        0 <= i < text.len() ==> '\0' <= (#[trigger] text[i]) <= '\u{7f}' && is_unreserved(
            text[i] as u8,
        )
}

proof fn lemma_escaped_bytes_plain(bytes: Seq<u8>)
    requires
        forall|i: int| 0 <= i < bytes.len() ==> is_unreserved(#[trigger] bytes[i]),
    ensures
        escaped_bytes(bytes).len() == bytes.len(),
        forall|i: int| 0 <= i < bytes.len() ==> #[trigger] escaped_bytes(bytes)[i] == bytes[i] as char,
    decreases bytes.len(),
{
    if bytes.len() > 0 {
        let rest = bytes.drop_first();
        assert forall|i: int| 0 <= i < rest.len() implies is_unreserved(#[trigger] rest[i]) by {
            assert(rest[i] == bytes[i + 1]);
        }
        lemma_escaped_bytes_plain(rest);
        assert forall|i: int| 0 <= i < bytes.len() implies #[trigger] escaped_bytes(bytes)[i]
            == bytes[i] as char by {
            if i > 0 {
                assert(escaped_bytes(bytes)[i] == escaped_bytes(rest)[i - 1]);
                assert(rest[i - 1] == bytes[i]);
            }
        }
    }
}

/// A text of unreserved characters is written as it is: letters, digits,
/// `-`, `.`, `_` and `~` need no escape.
pub proof fn lemma_escaped_plain(text: Seq<char>)
    requires
        is_plain(text),
    ensures
        escaped(text) == text,
{
    let bytes = encode_utf8(text);
    assert(is_ascii_chars(text)) by {
        assert forall|i: int| 0 <= i < text.len() implies '\0' <= #[trigger] text[i]
            <= '\u{7f}' by {
            assert(text[i] <= '\u{7f}');
        }
    }
    is_ascii_chars_encode_utf8(text);
    assert forall|i: int| 0 <= i < bytes.len() implies is_unreserved(#[trigger] bytes[i]) by {
        assert(bytes[i] == text[i] as u8);
    }
    lemma_escaped_bytes_plain(bytes);
    assert forall|i: int| 0 <= i < text.len() implies escaped(text)[i] == text[i] by {
        assert(bytes[i] == text[i] as u8);
        assert(text[i] <= '\u{7f}');
    }
    assert(escaped(text) =~= text);
}

/// Calls `String::push`. Trusted: the character is appended at the end of
/// the text and nothing else changes.
#[verifier::external_body]
fn push_char(text: &mut String, c: char)
    ensures
        final(text)@ == old(text)@.push(c),
{
    text.push(c)
}

fn hex_char(n: u8) -> (c: char)
    requires
        n < 16,
    ensures
        c == hex_digit(n as int),
{
    if n == 0 {
        '0'
    } else if n == 1 {
        '1'
    } else if n == 2 {
        '2'
    } else if n == 3 {
        '3'
    } else if n == 4 {
        '4'
    } else if n == 5 {
        '5'
    } else if n == 6 {
        '6'
    } else if n == 7 {
        '7'
    } else if n == 8 {
        '8'
    } else if n == 9 {
        '9'
    } else if n == 10 {
        'A'
    } else if n == 11 {
        'B'
    } else if n == 12 {
        'C'
    } else if n == 13 {
        'D'
    } else if n == 14 {
        'E'
    } else {
        'F'
    }
}

/// Percent-encodes a text.
pub fn escape(text: &str) -> (r: String)
    ensures
        r@ == escaped(text@),
{
    let bytes = text.as_bytes();
    let mut r = String::new();
    let mut i: usize = 0;
    while i < bytes.len()
        invariant
            i <= bytes.len(),
            bytes@ == encode_utf8(text@),
            r@ == escaped_bytes(bytes@.take(i as int)),
        decreases bytes.len() - i,
    {
        let byte = bytes[i];
        proof {
            assert(bytes@.take(i + 1) =~= bytes@.take(i as int).push(byte));
            lemma_escaped_bytes_push(bytes@.take(i as int), byte);
        }
        let plain = (0x41 <= byte && byte <= 0x5a) || (0x61 <= byte && byte <= 0x7a) || (0x30 <= byte
            && byte <= 0x39) || byte == 0x2d || byte == 0x2e || byte == 0x5f || byte == 0x7e;
        let ghost before = r@;
        if plain {
            push_char(&mut r, byte as char);
            assert(r@ =~= before + escaped_byte(byte));
        } else {
            push_char(&mut r, '%');
            push_char(&mut r, hex_char(byte / 16));
            push_char(&mut r, hex_char(byte % 16));
            assert(r@ =~= before + escaped_byte(byte));
        }
        i += 1;
    }
    assert(bytes@.take(i as int) =~= bytes@);
    r
}

} // verus!
