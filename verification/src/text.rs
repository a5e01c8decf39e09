//! Text as bytes: the facts about UTF-8 that null-terminated names rest on.

use vstd::prelude::*;
use vstd::utf8::*;

verus! {

/// No character of `s` is the null character.
pub open spec fn no_nul(s: Seq<char>) -> bool {
    forall|i: int| 0 <= i < s.len() ==> s[i] != '\0'
}

/// No byte of `bytes` is zero.
pub open spec fn no_zero(bytes: Seq<u8>) -> bool {
    forall|i: int| 0 <= i < bytes.len() ==> bytes[i] != 0
}

proof fn lemma_width_1_nonzero(c: u32)
    by (bit_vector)
    requires
        0 < c <= 0x7F,
    ensures
        (c & 0x7F) as u8 != 0,
{
}

proof fn lemma_marked_byte_nonzero(mark: u8, low: u8)
    by (bit_vector)
    requires
        mark >= 0x80,
    ensures
        mark | low != 0,
{
}

/// Every byte of the encoding of a scalar other than zero is non-zero, and
/// the encoding of zero is the single byte zero.
pub proof fn lemma_encode_scalar_zero(c: u32)
    requires
        is_scalar(c),
    ensures
        c != 0 ==> no_zero(encode_scalar(c)),
        c == 0 ==> encode_scalar(c) == seq![0u8],
        encode_scalar(c).len() >= 1,
{
    if has_width_1_encoding(c) {
        if c != 0 {
            lemma_width_1_nonzero(c);
        } else {
            assert((0u32 & 0x7F) as u8 == 0) by (bit_vector);
        }
    } else if has_width_2_encoding(c) {
        lemma_marked_byte_nonzero(0xC0, ((c >> 6) & 0x1F) as u8);
        lemma_marked_byte_nonzero(0x80, (c & 0x3F) as u8);
    } else if has_width_3_encoding(c) {
        lemma_marked_byte_nonzero(0xE0, ((c >> 12) & 0x0F) as u8);
        lemma_marked_byte_nonzero(0x80, ((c >> 6) & 0x3F) as u8);
        lemma_marked_byte_nonzero(0x80, (c & 0x3F) as u8);
    } else {
        lemma_marked_byte_nonzero(0xF0, ((c >> 18) & 0x7) as u8);
        lemma_marked_byte_nonzero(0x80, ((c >> 12) & 0x3F) as u8);
        lemma_marked_byte_nonzero(0x80, ((c >> 6) & 0x3F) as u8);
        lemma_marked_byte_nonzero(0x80, (c & 0x3F) as u8);
    }
}

/// A text holds the null character exactly when its UTF-8 encoding holds a
/// zero byte.
pub proof fn lemma_no_nul_iff_no_zero(s: Seq<char>)
    ensures
        no_nul(s) <==> no_zero(encode_utf8(s)),
    decreases s.len(),
{
    if s.len() > 0 {
        let head = encode_scalar(s[0] as u32);
        let tail = encode_utf8(s.drop_first());
        char_is_scalar(s[0]);
        lemma_encode_scalar_zero(s[0] as u32);
        lemma_no_nul_iff_no_zero(s.drop_first());
        assert(encode_utf8(s) == head + tail);
        if no_nul(s) {
            assert(s[0] != '\0');
            assert(no_nul(s.drop_first())) by {
                assert forall|i: int| 0 <= i < s.drop_first().len() implies s.drop_first()[i]
                    != '\0' by {
                    assert(s.drop_first()[i] == s[i + 1]);
                }
            }
            assert(s[0] as u32 != 0) by {
                char_u32_cast(s[0], s[0] as u32);
                char_u32_cast('\0', 0u32);
            }
            assert forall|i: int| 0 <= i < (head + tail).len() implies (head + tail)[i] != 0 by {
                if i >= head.len() {
                    assert((head + tail)[i] == tail[i - head.len()]);
                } else {
                    assert((head + tail)[i] == head[i]);
                }
            }
        }
        if no_zero(head + tail) {
            assert(s[0] != '\0') by {
                if s[0] == '\0' {
                    assert((head + tail)[0] == 0u8);
                }
            }
            assert(no_zero(tail)) by {
                assert forall|i: int| 0 <= i < tail.len() implies tail[i] != 0 by {
                    assert((head + tail)[head.len() + i] == tail[i]);
                }
            }
            assert forall|i: int| 0 <= i < s.len() implies s[i] != '\0' by {
                if i > 0 {
                    assert(s.drop_first()[i - 1] == s[i]);
                }
            }
        }
    }
}

/// [`String::from_utf8`]: the bytes become a string exactly when they are
/// valid UTF-8, and the string then holds the characters they encode.
#[verifier::external_body]
pub(crate) fn string_from_utf8(bytes: Vec<u8>) -> (r: Option<String>)
    ensures
        r is Some <==> valid_utf8(bytes@),
        r matches Some(s) ==> s@ == decode_utf8(bytes@),
{
    String::from_utf8(bytes).ok()
}

} // verus!
