//! Percent-encoding of a text that is to stand as one segment of a URL path.

use vstd::prelude::*;
use vstd::utf8::encode_utf8;

verus! {

/// Whether a byte stands for itself in an encoded text: the ASCII letters
/// and digits, and `-`, `.`, `_` and `~`.
pub open spec fn is_unreserved(b: u8) -> bool {
    ||| 0x30 <= b <= 0x39
    ||| 0x41 <= b <= 0x5a
    ||| 0x61 <= b <= 0x7a
    ||| b == 0x2d
    ||| b == 0x2e
    ||| b == 0x5f
    ||| b == 0x7e
}

/// The hexadecimal digit for a number below sixteen, in upper case.
pub open spec fn hex_digit(n: int) -> char
    recommends
        0 <= n < 16,
{
    if n < 10 {
        (0x30 + n) as u8 as char
    } else {
        (0x41 + n - 10) as u8 as char
    }
}

/// What one byte is encoded as: itself if it is unreserved, else `%` and its
/// two hexadecimal digits.
pub open spec fn encoded_byte(b: u8) -> Seq<char> {
    if is_unreserved(b) {
        seq![b as char]
    } else {
        seq!['%', hex_digit(b as int / 16), hex_digit(b as int % 16)]
    }
}

/// What a run of bytes is encoded as: the encodings of its bytes, in order.
pub open spec fn encoded_bytes(bytes: Seq<u8>) -> Seq<char>
    decreases bytes.len(),
{
    if bytes.len() == 0 {
        Seq::empty()
    } else {
        encoded_bytes(bytes.drop_last()) + encoded_byte(bytes.last())
    }
}

/// What a text is encoded as: the encoding of its bytes in UTF-8.
pub open spec fn percent_encoded(text: Seq<char>) -> Seq<char> {
    encoded_bytes(encode_utf8(text))
}

/// Whether a character may occur in an encoded text.
pub open spec fn is_encoded_char(c: char) -> bool {
    c == '%' || (c as u32 <= 0x7f && is_unreserved(c as u8))
}

/// An encoded run of bytes holds nothing but unreserved characters and `%`.
proof fn lemma_encoded_bytes_are_plain(bytes: Seq<u8>)
    ensures
        forall|i: int|
            0 <= i < encoded_bytes(bytes).len() ==> is_encoded_char(
                #[trigger] encoded_bytes(bytes)[i],
            ),
    decreases bytes.len(),
{
    if bytes.len() > 0 {
        lemma_encoded_bytes_are_plain(bytes.drop_last());
        let front = encoded_bytes(bytes.drop_last());
        let last = encoded_byte(bytes.last());
        assert forall|i: int| 0 <= i < last.len() implies is_encoded_char(#[trigger] last[i]) by {
            let b = bytes.last();
            if !is_unreserved(b) {
                assert(is_encoded_char(hex_digit(b as int / 16)));
                assert(is_encoded_char(hex_digit(b as int % 16)));
            }
        }
        assert forall|i: int| 0 <= i < encoded_bytes(bytes).len() implies is_encoded_char(
            #[trigger] encoded_bytes(bytes)[i],
        ) by {
            if i < front.len() {
                assert(encoded_bytes(bytes)[i] == front[i]);
            } else {
                assert(encoded_bytes(bytes)[i] == last[i - front.len()]);
            }
        }
    }
}

/// An encoded text holds nothing but unreserved characters and `%`; so it
/// holds none of the characters that part a URL, such as `/`, `?` and `#`.
pub proof fn lemma_percent_encoded_is_plain(text: Seq<char>)
    ensures
        forall|i: int|
            0 <= i < percent_encoded(text).len() ==> is_encoded_char(
                #[trigger] percent_encoded(text)[i],
            ),
        forall|i: int|
            0 <= i < percent_encoded(text).len() ==> {
                let c = #[trigger] percent_encoded(text)[i];
                c != '/' && c != '?' && c != '#' && c != ':' && c != '@' && c != ' '
            },
{
    lemma_encoded_bytes_are_plain(encode_utf8(text));
    assert forall|i: int| 0 <= i < percent_encoded(text).len() implies {
        let c = #[trigger] percent_encoded(text)[i];
        c != '/' && c != '?' && c != '#' && c != ':' && c != '@' && c != ' '
    } by {
        assert(is_encoded_char(percent_encoded(text)[i]));
    }
}

/// `urlencoding::encode`, which percent-encodes every byte of the text's
/// UTF-8 form except the ASCII letters and digits and `-`, `_`, `.`, `~`,
/// writing the two hexadecimal digits of an encoded byte in upper case.
#[verifier::external_body]
pub(crate) fn encode(text: &str) -> (encoded: String)
    ensures
        encoded@ == percent_encoded(text@),
{
    urlencoding::encode(text).into_owned()
}

} // verus!
