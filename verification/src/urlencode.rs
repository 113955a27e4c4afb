//! Percent-encoding of text for a query string. The encoding is
//! `urlencoding`'s; this module states what it gives.

use vstd::prelude::*;
use vstd::utf8::{encode_utf8, is_ascii_chars, is_ascii_chars_encode_utf8};

verus! {

/// The bytes that are left as they are: ASCII letters and digits, `-`,
/// `.`, `_` and `~`.
pub open spec fn is_unreserved(b: u8) -> bool {
    (0x30 <= b <= 0x39) || (0x41 <= b <= 0x5A) || (0x61 <= b <= 0x7A) || b == 0x2D || b == 0x2E
        || b == 0x5F || b == 0x7E
}

/// The hexadecimal digit of a value below sixteen, in upper case.
pub open spec fn hex_upper(n: int) -> char {
    if n < 10 {
        (0x30 + n) as char
    } else {
        (0x41 + n - 10) as char
    }
}

/// What stands for one byte: the byte itself, or a percent sign and its two
/// hexadecimal digits.
pub open spec fn escaped(b: u8) -> Seq<char> {
    if is_unreserved(b) {
        seq![b as char]
    } else {
        seq!['%', hex_upper(b as int / 16), hex_upper(b as int % 16)]
    }
}

/// The percent-encoding of a sequence of bytes.
pub open spec fn percent_encoded(bytes: Seq<u8>) -> Seq<char>
    decreases bytes.len(),
{
    if bytes.len() == 0 {
        Seq::empty()
    } else {
        percent_encoded(bytes.drop_last()) + escaped(bytes.last())
    }
}

/// `urlencoding::encode`: the percent-encoding of the UTF-8 bytes of `s`.
/// Every byte but an unreserved one becomes a percent sign and two
/// upper-case hexadecimal digits.
#[verifier::external_body]
pub(crate) fn percent_encode(s: &str) -> (r: String)
    ensures
        r@ == percent_encoded(encode_utf8(s@)),
{
    urlencoding::encode(s).into_owned()
}

/// A character that may stand in encoded text: an unreserved one, or the
/// percent sign.
pub open spec fn is_query_safe(c: char) -> bool {
    c == '%' || (c as u32 <= 0x7F && is_unreserved(c as u8))
}

/// Encoded text holds nothing that could end or split a query parameter:
/// every character of it is unreserved or a percent sign.
pub proof fn lemma_percent_encoded_is_safe(bytes: Seq<u8>)
    ensures
        forall|i: int|
            0 <= i < percent_encoded(bytes).len() ==> is_query_safe(
                #[trigger] percent_encoded(bytes)[i],
            ),
    decreases bytes.len(),
{
    if bytes.len() > 0 {
        lemma_percent_encoded_is_safe(bytes.drop_last());
        let b = bytes.last();
        let head = percent_encoded(bytes.drop_last());
        assert forall|i: int| 0 <= i < escaped(b).len() implies is_query_safe(
            #[trigger] escaped(b)[i],
        ) by {
            if is_unreserved(b) {
                assert(escaped(b)[i] == b as char);
                assert((b as char) as u32 == b as u32);
            } else {
                let hi = b as int / 16;
                let lo = b as int % 16;
                assert(0 <= hi < 16 && 0 <= lo < 16);
                assert(is_query_safe(hex_upper(hi)));
                assert(is_query_safe(hex_upper(lo)));
            }
        }
        assert forall|i: int| 0 <= i < percent_encoded(bytes).len() implies is_query_safe(
            #[trigger] percent_encoded(bytes)[i],
        ) by {
            if i < head.len() {
                assert(percent_encoded(bytes)[i] == head[i]);
            } else {
                assert(percent_encoded(bytes)[i] == escaped(b)[i - head.len()]);
            }
        }
    }
}

/// The percent-encoding of ASCII text, character by character.
pub open spec fn encoded_text(s: Seq<char>) -> Seq<char>
    decreases s.len(),
{
    if s.len() == 0 {
        Seq::empty()
    } else {
        encoded_text(s.drop_last()) + escaped(s.last() as u8)
    }
}

/// ASCII text is encoded character by character: each character is one
/// byte.
pub proof fn lemma_ascii_is_encoded_by_character(s: Seq<char>)
    requires
        is_ascii_chars(s),
    ensures
        percent_encoded(encode_utf8(s)) == encoded_text(s),
    decreases s.len(),
{
    is_ascii_chars_encode_utf8(s);
    if s.len() > 0 {
        let head = s.drop_last();
        assert(is_ascii_chars(head)) by {
            assert forall|i: int| 0 <= i < head.len() implies '\0' <= #[trigger] head[i]
                <= '\u{7f}' by {
                assert(head[i] == s[i]);
            }
        }
        is_ascii_chars_encode_utf8(head);
        lemma_ascii_is_encoded_by_character(head);
        assert(encode_utf8(s).drop_last() =~= encode_utf8(head)) by {
            assert forall|i: int| 0 <= i < head.len() implies encode_utf8(s).drop_last()[i]
                == encode_utf8(head)[i] by {
                assert(head[i] == s[i]);
            }
        }
        assert(encode_utf8(s).last() == s.last() as u8);
    } else {
        assert(encode_utf8(s).len() == 0);
    }
}

/// Encoding goes piece by piece.
pub proof fn lemma_encoded_text_concat(a: Seq<char>, b: Seq<char>)
    ensures
        encoded_text(a + b) == encoded_text(a) + encoded_text(b),
    decreases b.len(),
{
    if b.len() == 0 {
        assert(a + b == a);
        assert(encoded_text(a) + encoded_text(b) == encoded_text(a));
    } else {
        lemma_encoded_text_concat(a, b.drop_last());
        assert((a + b).drop_last() == a + b.drop_last());
        assert((a + b).last() == b.last());
        assert(encoded_text(a) + (encoded_text(b.drop_last()) + escaped(b.last() as u8)) == (
        encoded_text(a) + encoded_text(b.drop_last())) + escaped(b.last() as u8));
    }
}

/// Text of letters, digits, `-`, `.`, `_` and `~` alone is its own
/// encoding.
pub proof fn lemma_unreserved_text_stays(s: Seq<char>)
    requires
        forall|i: int| 0 <= i < s.len() ==> (#[trigger] s[i]) as u32 <= 0x7F && is_unreserved(
            s[i] as u8,
        ),
    ensures
        encoded_text(s) == s,
    decreases s.len(),
{
    if s.len() > 0 {
        lemma_unreserved_text_stays(s.drop_last());
        let c = s.last();
        let n: u32 = c as u32;
        vstd::utf8::char_u32_cast(c, n);
        assert(n <= 0x7F && is_unreserved(c as u8));
        assert((c as u8) as char == n as char);
        assert(s.drop_last() + seq![c] == s);
    }
}

} // verus!
