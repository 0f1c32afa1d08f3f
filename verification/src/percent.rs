//! Percent-encoding of text in a URL.
use vstd::prelude::*;
use vstd::string::*;
use vstd::utf8::encode_utf8;

verus! {

/// A byte that stands for itself in an encoded text: a letter, a digit, or one of
/// `-`, `.`, `_`, `~`.
pub open spec fn unreserved(b: u8) -> bool {
    ||| 0x30 <= b <= 0x39
    ||| 0x41 <= b <= 0x5a
    ||| 0x61 <= b <= 0x7a
    ||| b == 0x2d
    ||| b == 0x2e
    ||| b == 0x5f
    ||| b == 0x7e
}

/// The hexadecimal digit for a number under sixteen, with capital letters.
pub open spec fn hex_digit(n: int) -> char {
    if n < 10 {
        (48 + n) as char
    } else {
        (55 + n) as char
    }
}

/// One byte, encoded.
pub open spec fn encoded_byte(b: u8) -> Seq<char> {
    if unreserved(b) {
        seq![b as char]
    } else {
        seq!['%', hex_digit(b as int / 16), hex_digit(b as int % 16)]
    }
}

/// The bytes, encoded one after the other.
pub open spec fn percent_encoded(bytes: Seq<u8>) -> Seq<char>
    decreases bytes.len(),
{
    if bytes.len() == 0 {
        Seq::<char>::empty()
    } else {
        encoded_byte(bytes[0]) + percent_encoded(bytes.drop_first())
    }
}

/// `urlencoding::encode`: each byte of the text in UTF-8 stands for itself if it is
/// a letter, a digit, `-`, `.`, `_` or `~`, and is written as `%` and two
/// hexadecimal digits otherwise.
#[verifier::external_body]
pub(crate) fn url_encode(text: &str) -> (r: String)
    ensures
        r@ == percent_encoded(encode_utf8(text@)),
{
    urlencoding::encode(text).into_owned()
}

/// The number that a hexadecimal digit stands for.
pub open spec fn hex_value(c: char) -> int {
    if c as int <= 57 {
        c as int - 48
    } else {
        c as int - 55
    }
}

/// The bytes that an encoded text stands for.
pub open spec fn percent_decoded(text: Seq<char>) -> Seq<u8>
    decreases text.len(),
{
    if text.len() == 0 {
        Seq::<u8>::empty()
    } else if text[0] == '%' && text.len() >= 3 {
        seq![(16 * hex_value(text[1]) + hex_value(text[2])) as u8] + percent_decoded(text.skip(3))
    } else {
        seq![text[0] as u8] + percent_decoded(text.drop_first())
    }
}

/// Encoding loses nothing: decoding the encoded bytes gives them back.
pub proof fn law_encoding_is_undone_by_decoding(bytes: Seq<u8>)
    ensures
        percent_decoded(percent_encoded(bytes)) == bytes,
    decreases bytes.len(),
{
    if bytes.len() > 0 {
        let rest = percent_encoded(bytes.drop_first());
        let all = percent_encoded(bytes);
        law_encoding_is_undone_by_decoding(bytes.drop_first());
        if unreserved(bytes[0]) {
            assert(all.drop_first() =~= rest);
        } else {
            assert(all.skip(3) =~= rest);
        }
        assert(percent_decoded(all) =~= bytes);
    }
}

/// An encoded text holds letters, digits, `-`, `.`, `_`, `~` and `%` only, so
/// nothing in it ends the part of a URL in which it stands.
pub proof fn law_encoded_text_is_plain(bytes: Seq<u8>)
    ensures
        forall|k: int| 0 <= k < percent_encoded(bytes).len() ==> {
            let c = #[trigger] percent_encoded(bytes)[k];
            c == '%' || (c as int <= 0x7f && unreserved(c as u8))
        },
    decreases bytes.len(),
{
    if bytes.len() > 0 {
        law_encoded_text_is_plain(bytes.drop_first());
        let n = encoded_byte(bytes[0]).len();
        assert forall|k: int| 0 <= k < percent_encoded(bytes).len() implies {
            let c = #[trigger] percent_encoded(bytes)[k];
            c == '%' || (c as int <= 0x7f && unreserved(c as u8))
        } by {
            if k >= n {
                assert(percent_encoded(bytes)[k] == percent_encoded(bytes.drop_first())[k - n]);
            }
        }
    }
}

} // verus!
