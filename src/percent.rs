//! Percent-encoding of query values.
use vstd::prelude::*;
use vstd::utf8::{decode_utf8, encode_utf8, encode_utf8_decode_utf8};

verus! {

/// Bytes that stay as they are in an encoded query value: ASCII letters,
/// digits and `-`, `.`, `_`, `~`.
pub open spec fn is_unreserved(b: u8) -> bool {
    (0x30 <= b <= 0x39) || (0x41 <= b <= 0x5A) || (0x61 <= b <= 0x7A) || b == 0x2D || b == 0x2E
        || b == 0x5F || b == 0x7E
}

/// The upper-case hexadecimal digit of a value below sixteen.
pub open spec fn hex_digit_upper(d: u8) -> char {
    seq!['0', '1', '2', '3', '4', '5', '6', '7', '8', '9', 'A', 'B', 'C', 'D', 'E', 'F'][d as int]
}

/// How one byte is written in an encoded query value.
pub open spec fn percent_encode_byte(b: u8) -> Seq<char> {
    if is_unreserved(b) {
        seq![b as char]
    } else {
        seq!['%', hex_digit_upper(b / 16), hex_digit_upper(b % 16)]
    }
}

/// The percent-encoding of a byte sequence: every byte but the unreserved
/// ones becomes `%` followed by two upper-case hexadecimal digits.
pub open spec fn percent_encode(bytes: Seq<u8>) -> Seq<char>
    decreases bytes.len(),
{
    if bytes.len() == 0 {
        seq![]
    } else {
        percent_encode_byte(bytes[0]) + percent_encode(bytes.drop_first())
    }
}

/// The value of a hexadecimal digit of either case.
pub open spec fn hex_value(c: char) -> Option<u8> {
    if '0' <= c <= '9' {
        Some((c as u32 - '0' as u32) as u8)
    } else if 'A' <= c <= 'F' {
        Some((c as u32 - 'A' as u32 + 10) as u8)
    } else if 'a' <= c <= 'f' {
        Some((c as u32 - 'a' as u32 + 10) as u8)
    } else {
        None
    }
}

/// How a receiver reads an encoded query value back into bytes: `%` and two
/// hexadecimal digits give one byte, any other character stands for itself.
pub open spec fn percent_decode(s: Seq<char>) -> Seq<u8>
    decreases s.len(),
{
    if s.len() == 0 {
        seq![]
    } else if s[0] == '%' && s.len() >= 3 && hex_value(s[1]) is Some && hex_value(s[2]) is Some {
        seq![(hex_value(s[1])->0 * 16 + hex_value(s[2])->0) as u8] + percent_decode(
            s.subrange(3, s.len() as int),
        )
    } else {
        seq![s[0] as u32 as u8] + percent_decode(s.drop_first())
    }
}

/// Relies on urlencoding::encode, which writes the UTF-8 bytes of its
/// argument, each unreserved byte as itself and every other as `%XX` with
/// upper-case digits.
#[verifier::external_body]
pub(crate) fn url_encode(s: &str) -> (r: String)
    ensures
        r@ == percent_encode(encode_utf8(s@)),
{
    urlencoding::encode(s).into_owned()
}

proof fn lemma_decode_encode_byte(b: u8, rest: Seq<char>)
    ensures
        percent_decode(percent_encode_byte(b) + rest) == seq![b] + percent_decode(rest),
{
    let s = percent_encode_byte(b) + rest;
    if is_unreserved(b) {
        assert(s.drop_first() =~= rest);
        assert(s[0] == b as char);
    } else {
        assert(s.subrange(3, s.len() as int) =~= rest);
        assert(hex_value(hex_digit_upper(b / 16)) == Some(b / 16));
        assert(hex_value(hex_digit_upper(b % 16)) == Some(b % 16));
    }
}

/// Reading back the percent-encoding of a byte sequence gives the sequence.
pub proof fn lemma_percent_round_trip(bytes: Seq<u8>)
    ensures
        percent_decode(percent_encode(bytes)) == bytes,
    decreases bytes.len(),
{
    if bytes.len() > 0 {
        lemma_percent_round_trip(bytes.drop_first());
        lemma_decode_encode_byte(bytes[0], percent_encode(bytes.drop_first()));
        assert(bytes =~= seq![bytes[0]] + bytes.drop_first());
    }
}

/// A query value encoded for the backend decodes, as UTF-8, to exactly the
/// text it came from, whatever reserved characters it holds.
pub proof fn lemma_query_value_round_trip(text: Seq<char>)
    ensures
        decode_utf8(percent_decode(percent_encode(encode_utf8(text)))) == text,
{
    lemma_percent_round_trip(encode_utf8(text));
    encode_utf8_decode_utf8(text);
}

} // verus!
