//! Percent-encoding of URL query components, and its inverse.

use vstd::prelude::*;
use vstd::string::*;
use vstd::utf8::*;

verus! {

/// Bytes that percent-encoding leaves as they are: ASCII letters and digits,
/// and `-`, `.`, `_`, `~`.
pub open spec fn is_unreserved(b: u8) -> bool {
    ||| 48 <= b <= 57
    ||| 65 <= b <= 90
    ||| 97 <= b <= 122
    ||| b == 45
    ||| b == 46
    ||| b == 95
    ||| b == 126
}

/// The upper-case hexadecimal digit of a value below 16.
pub open spec fn hex_digit(d: u8) -> char {
    if d < 10 {
        ((48 + d) as u8) as char
    } else {
        ((55 + d) as u8) as char
    }
}

/// The encoding of one byte: itself when unreserved, else `%` and two
/// upper-case hexadecimal digits.
pub open spec fn encode_byte(b: u8) -> Seq<char> {
    if is_unreserved(b) {
        seq![b as char]
    } else {
        seq!['%', hex_digit(b / 16), hex_digit(b % 16)]
    }
}

/// The percent-encoding of a byte string, byte by byte.
pub open spec fn percent_encode(bytes: Seq<u8>) -> Seq<char>
    decreases bytes.len(),
{
    if bytes.len() == 0 {
        Seq::empty()
    } else {
        encode_byte(bytes[0]) + percent_encode(bytes.drop_first())
    }
}

/// The value of a hexadecimal digit, in either case.
pub open spec fn hex_value(c: char) -> Option<u8> {
    if '0' <= c <= '9' {
        Some((c as u8 - 48) as u8)
    } else if 'A' <= c <= 'F' {
        Some((c as u8 - 55) as u8)
    } else if 'a' <= c <= 'f' {
        Some((c as u8 - 87) as u8)
    } else {
        None
    }
}

/// The bytes that a query component stands for: `%` with two hexadecimal
/// digits is that byte, `+` is a space, and any other character is its
/// UTF-8 form.
pub open spec fn percent_decode(s: Seq<char>) -> Seq<u8>
    decreases s.len(),
{
    if s.len() == 0 {
        Seq::empty()
    } else if s[0] == '%' && s.len() >= 3 && hex_value(s[1]).is_some() && hex_value(
        s[2],
    ).is_some() {
        seq![(hex_value(s[1]).unwrap() * 16 + hex_value(s[2]).unwrap()) as u8] + percent_decode(
            s.skip(3),
        )
    } else if s[0] == '+' {
        seq![32u8] + percent_decode(s.drop_first())
    } else {
        encode_utf8(seq![s[0]]) + percent_decode(s.drop_first())
    }
}

/// Characters that can occur in a percent-encoded string.
pub open spec fn is_encoded_char(c: char) -> bool {
    (c as u32) < 128 && (is_unreserved(c as u8) || c == '%')
}

proof fn lemma_hex_digit(d: u8)
    requires
        d < 16,
    ensures
        hex_value(hex_digit(d)) == Some(d),
        is_encoded_char(hex_digit(d)),
{
}

proof fn lemma_encode_byte_chars(b: u8)
    ensures
        forall|i: int| 0 <= i < encode_byte(b).len() ==> is_encoded_char(#[trigger] encode_byte(b)[i]),
{
    if !is_unreserved(b) {
        lemma_hex_digit(b / 16);
        lemma_hex_digit(b % 16);
    }
}

/// Every character of a percent-encoding is an unreserved ASCII character or `%`.
pub proof fn lemma_encoded_chars(bytes: Seq<u8>)
    ensures
        forall|i: int|
            0 <= i < percent_encode(bytes).len() ==> is_encoded_char(
                #[trigger] percent_encode(bytes)[i],
            ),
    decreases bytes.len(),
{
    if bytes.len() > 0 {
        lemma_encode_byte_chars(bytes[0]);
        lemma_encoded_chars(bytes.drop_first());
        let e = encode_byte(bytes[0]);
        let t = percent_encode(bytes.drop_first());
        assert forall|i: int| 0 <= i < (e + t).len() implies is_encoded_char(#[trigger] (e + t)[i]) by {
            if i < e.len() {
                assert(is_encoded_char(e[i]));
            } else {
                assert(is_encoded_char(t[i - e.len()]));
            }
        }
    }
}

proof fn lemma_decode_encode_byte(b: u8, t: Seq<char>)
    ensures
        percent_decode(encode_byte(b) + t) == seq![b] + percent_decode(t),
{
    let s = encode_byte(b) + t;
    if is_unreserved(b) {
        let c = b as char;
        assert(s[0] == c);
        assert(s.drop_first() =~= t);
        assert(is_ascii_chars(seq![c]));
        is_ascii_chars_encode_utf8(seq![c]);
        assert(encode_utf8(seq![c]) =~= seq![b]);
    } else {
        lemma_hex_digit(b / 16);
        lemma_hex_digit(b % 16);
        assert(s[1] == hex_digit(b / 16));
        assert(s[2] == hex_digit(b % 16));
        assert(s.skip(3) =~= t);
        assert((b / 16) * 16 + b % 16 == b);
    }
}

/// Decoding a percent-encoding gives back the bytes that were encoded.
pub proof fn lemma_decode_encode(bytes: Seq<u8>)
    ensures
        percent_decode(percent_encode(bytes)) == bytes,
    decreases bytes.len(),
{
    if bytes.len() > 0 {
        lemma_decode_encode_byte(bytes[0], percent_encode(bytes.drop_first()));
        lemma_decode_encode(bytes.drop_first());
        assert(seq![bytes[0]] + bytes.drop_first() =~= bytes);
    }
}

/// Relies on urlencoding::encode: each byte of the UTF-8 form of `s` that is
/// not an ASCII letter, digit, `-`, `.`, `_` or `~` becomes `%` followed by
/// its two upper-case hexadecimal digits; the others stay as they are.
#[verifier::external_body]
pub(crate) fn url_encode(s: &str) -> (r: String)
    ensures
        r@ == percent_encode(s.spec_bytes()),
{
    urlencoding::encode(s).into_owned()
}

} // verus!
