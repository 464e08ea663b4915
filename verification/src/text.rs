//! Text in bytes.
use vstd::prelude::*;
use vstd::utf8::{
    decode_first_codepoint, decode_first_scalar, decode_utf8, is_leading_byte_width_1,
    is_leading_byte_width_2, is_leading_byte_width_3, leading_bits_width_1, pop_first_scalar, valid_utf8,
};

verus! {

/// None of the bytes is zero, as in a C string.
pub open spec fn has_no_zero(bytes: Seq<u8>) -> bool {
    forall|i: int| 0 <= i < bytes.len() ==> bytes[i] != 0
}

/// The text holds no null character.
pub open spec fn has_no_null(text: Seq<char>) -> bool {
    forall|i: int| 0 <= i < text.len() ==> text[i] != '\0'
}

/// What `String::from_utf8_lossy` makes of the bytes.
pub uninterp spec fn lossy_text(bytes: Seq<u8>) -> Seq<char>;

/// The text that the bytes stand for, as far as they are UTF-8.
pub open spec fn readable_text(bytes: Seq<u8>) -> Seq<char> {
    if valid_utf8(bytes) {
        decode_utf8(bytes)
    } else {
        lossy_text(bytes)
    }
}

/// `String::from_utf8_lossy`. It depends on the bytes alone. Bytes that are UTF-8 come out as
/// the text that they stand for; in others, what is not UTF-8 is replaced by U+FFFD, so that a
/// null character comes of a zero byte only. How many replacements there are is not claimed.
#[verifier::external_body]
pub(crate) fn from_utf8_lossy(bytes: &[u8]) -> (text: String)
    ensures
        text@ == lossy_text(bytes@),
        valid_utf8(bytes@) ==> text@ == decode_utf8(bytes@),
        has_no_zero(bytes@) ==> has_no_null(text@),
{
    String::from_utf8_lossy(bytes).into_owned()
}

/// `std::str::from_utf8`, without the reason for a failure: the text that the bytes stand for
/// if they are UTF-8, and nothing otherwise.
#[verifier::external_body]
pub(crate) fn from_utf8(bytes: &[u8]) -> (text: Option<&str>)
    ensures
        text is Some <==> valid_utf8(bytes@),
        text matches Some(t) ==> t@ == decode_utf8(bytes@),
{
    std::str::from_utf8(bytes).ok()
}

/// UTF-8 without zero bytes stands for a text without null characters.
pub proof fn null_comes_of_zero(bytes: Seq<u8>)
    requires
        valid_utf8(bytes),
        has_no_zero(bytes),
    ensures
        has_no_null(decode_utf8(bytes)),
    decreases bytes.len(),
{
    if bytes.len() > 0 {
        let rest = pop_first_scalar(bytes);
        assert forall|i: int| 0 <= i < rest.len() implies rest[i] != 0 by {
            assert(bytes.contains(rest[i]));
        }
        null_comes_of_zero(rest);
        let first = bytes[0];
        if is_leading_byte_width_1(first) {
            assert(0 < first <= 0x7f ==> first & 0x7F == first) by (bit_vector);
            assert(leading_bits_width_1(first) == first);
        } else if is_leading_byte_width_2(first) {
            let second = bytes[1];
            assert(((first & 0x1F) as u32) << 6 | (second & 0x3F) as u32 <= 0x7FF) by (bit_vector);
        } else if is_leading_byte_width_3(first) {
            let second = bytes[1];
            let third = bytes[2];
            assert(((first & 0x0F) as u32) << 12 | ((second & 0x3F) as u32) << 6 | (third
                & 0x3F) as u32 <= 0xFFFF) by (bit_vector);
        }
        assert(0 < decode_first_codepoint(bytes) <= 0x10ffff);
        assert(decode_first_scalar(bytes) as char != '\0');
        assert(decode_utf8(bytes) =~= seq![decode_first_scalar(bytes) as char] + decode_utf8(rest));
    }
}

/// Text that is UTF-8 is read as it stands, whatever its length; it holds no null character where
/// the bytes hold no zero. What is not UTF-8 is left to `String::from_utf8_lossy`.
pub proof fn readable_text_is_the_text(bytes: Seq<u8>)
    ensures
        valid_utf8(bytes) ==> readable_text(bytes) == decode_utf8(bytes),
        !valid_utf8(bytes) ==> readable_text(bytes) == lossy_text(bytes),
        valid_utf8(bytes) && has_no_zero(bytes) ==> has_no_null(readable_text(bytes)),
{
    if valid_utf8(bytes) && has_no_zero(bytes) {
        null_comes_of_zero(bytes);
    }
}

} // verus!
