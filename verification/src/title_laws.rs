//! What a reserved character in a title becomes in the file name. The way
//! from the title to the file name leads through its UTF-8 bytes and their
//! percent decoding; a reserved character is an ASCII character that is
//! neither `%` nor a hexadecimal digit, and so it comes through both.

use crate::percent::hex_value;
use crate::percent::percent_decoded;
use crate::percent::starts_with_escape;
use crate::title::decoded_title;
use crate::title::escape_of;
use crate::title::file_name_of;
use crate::title::is_reserved;
use crate::percent::lemma_decoding_without_percent;
use crate::title::file_suffix;
use crate::title::lemma_file_name_has_no_reserved;
use crate::title::lemma_file_name_of_plain_title;
use crate::title::lemma_file_name_spells_reserved;
use vstd::prelude::*;
use vstd::utf8::*;

verus! {

/// An ASCII character is the byte of its code, and that byte is the
/// character again.
proof fn lemma_ascii_casts(c: char)
    requires
        (c as u32) < 0x80,
    ensures
        (c as u32) as u8 == c as u8,
        (c as u8) as u32 == c as u32,
        ((c as u8) as u32) as char == c,
{
}

/// An ASCII character of a text is one of the bytes of its UTF-8 encoding.
proof fn lemma_ascii_char_is_a_byte(text: Seq<char>, i: int)
    requires
        0 <= i < text.len(),
        (text[i] as u32) < 0x80,
    ensures
        exists|j: int|
            0 <= j < encode_utf8(text).len() && #[trigger] encode_utf8(text)[j] == text[i] as u8,
    decreases text.len(),
{
    char_is_scalar(text[0]);
    lemma_ascii_casts(text[i]);
    let first = encode_scalar(text[0] as u32);
    let rest = encode_utf8(text.drop_first());
    assert(encode_utf8(text) == first + rest);
    if i == 0 {
        let c = text[0] as u32;
        assert(c as u8 == leading_byte_width_1(c)) by (bit_vector)
            requires
                has_width_1_encoding(c),
        ;
        assert(first =~= seq![leading_byte_width_1(c)]);
        assert(first[0] == c as u8);
        assert(c as u8 == text[0] as u8);
        assert(encode_utf8(text)[0] == first[0]);
    } else {
        lemma_ascii_char_is_a_byte(text.drop_first(), i - 1);
        let j = choose|j: int|
            0 <= j < rest.len() && #[trigger] rest[j] == text.drop_first()[i - 1] as u8;
        assert(encode_utf8(text)[first.len() + j] == rest[j]);
    }
}

/// A byte that is neither `%` nor a hexadecimal digit is part of no percent
/// escape, so decoding keeps it.
proof fn lemma_decoding_keeps_plain_byte(bytes: Seq<u8>, j: int)
    requires
        0 <= j < bytes.len(),
        bytes[j] != 0x25,
        hex_value(bytes[j]).is_none(),
    ensures
        exists|k: int|
            0 <= k < percent_decoded(bytes).len() && #[trigger] percent_decoded(bytes)[k]
                == bytes[j],
    decreases bytes.len(),
{
    let out = percent_decoded(bytes);
    if starts_with_escape(bytes) {
        let rest = bytes.skip(3);
        assert(j >= 3);
        assert(rest[j - 3] == bytes[j]);
        lemma_decoding_keeps_plain_byte(rest, j - 3);
        let k = choose|k: int|
            0 <= k < percent_decoded(rest).len() && #[trigger] percent_decoded(rest)[k] == rest[j
                - 3];
        assert(out[k + 1] == percent_decoded(rest)[k]);
    } else if j == 0 {
        assert(out[0] == bytes[0]);
    } else {
        let rest = bytes.drop_first();
        assert(rest[j - 1] == bytes[j]);
        lemma_decoding_keeps_plain_byte(rest, j - 1);
        let k = choose|k: int|
            0 <= k < percent_decoded(rest).len() && #[trigger] percent_decoded(rest)[k] == rest[j
                - 1];
        assert(out[k + 1] == percent_decoded(rest)[k]);
    }
}

/// An ASCII byte of well-formed UTF-8 is one of the characters that the
/// bytes spell.
proof fn lemma_ascii_byte_is_a_char(bytes: Seq<u8>, k: int)
    requires
        valid_utf8(bytes),
        0 <= k < bytes.len(),
        bytes[k] < 0x80,
    ensures
        exists|m: int|
            0 <= m < decode_utf8(bytes).len() && #[trigger] decode_utf8(bytes)[m] == (
            bytes[k] as u32) as char,
    decreases bytes.len(),
{
    let width = length_of_first_scalar(bytes);
    let rest = pop_first_scalar(bytes);
    assert(valid_first_scalar(bytes));
    assert(decode_utf8(bytes) == seq![decode_first_scalar(bytes) as char] + decode_utf8(rest));
    if k == 0 {
        let b = bytes[0];
        assert(b & 0x7F == b) by (bit_vector)
            requires
                b < 0x80,
        ;
        assert(decode_utf8(bytes)[0] == (bytes[0] as u32) as char);
    } else if k < width {
        assert(is_continuation_byte(bytes[k]));
    } else {
        assert(rest[k - width] == bytes[k]);
        lemma_ascii_byte_is_a_char(rest, k - width);
        let m = choose|m: int|
            0 <= m < decode_utf8(rest).len() && #[trigger] decode_utf8(rest)[m] == (rest[k
                - width] as u32) as char;
        assert(decode_utf8(bytes)[m + 1] == decode_utf8(rest)[m]);
    }
}

/// A reserved character is an ASCII character, and neither `%` nor a
/// hexadecimal digit.
proof fn lemma_reserved_is_plain_ascii(c: char)
    requires
        is_reserved(c),
    ensures
        (c as u32) < 0x80,
        (c as u8) as u32 == c as u32,
        c as u8 != 0x25,
        hex_value(c as u8).is_none(),
{
}

/// A reserved character of a title is still there when the title is
/// decoded.
pub proof fn lemma_reserved_char_survives(title: Seq<char>, i: int)
    requires
        0 <= i < title.len(),
        is_reserved(title[i]),
        decoded_title(title).is_some(),
    ensures
        exists|m: int|
            0 <= m < decoded_title(title).unwrap().len() && #[trigger] decoded_title(
                title,
            ).unwrap()[m] == title[i],
{
    let c = title[i];
    let bytes = encode_utf8(title);
    lemma_reserved_is_plain_ascii(c);
    lemma_ascii_char_is_a_byte(title, i);
    let j = choose|j: int| 0 <= j < bytes.len() && #[trigger] bytes[j] == c as u8;
    lemma_decoding_keeps_plain_byte(bytes, j);
    let decoded = percent_decoded(bytes);
    let k = choose|k: int| 0 <= k < decoded.len() && #[trigger] decoded[k] == bytes[j];
    lemma_ascii_byte_is_a_char(decoded, k);
    let m = choose|m: int|
        0 <= m < decode_utf8(decoded).len() && #[trigger] decode_utf8(decoded)[m] == (
        decoded[k] as u32) as char;
    lemma_ascii_casts(c);
    assert(decoded[k] as u32 == c as u32);
    assert(decoded_title(title).unwrap()[m] == c);
}

/// Where a title holds a reserved character, its file name holds that
/// character's escape, `%` and two lower-case hexadecimal digits, and holds
/// the character itself no more.
pub proof fn lemma_reserved_in_title_is_escaped(title: Seq<char>, i: int)
    requires
        0 <= i < title.len(),
        is_reserved(title[i]),
        file_name_of(title).is_some(),
    ensures
        exists|at: int|
            0 <= at && at + 3 <= file_name_of(title).unwrap().len() && #[trigger] file_name_of(
                title,
            ).unwrap().subrange(at, at + 3) == escape_of(title[i]),
        forall|j: int|
            0 <= j < file_name_of(title).unwrap().len() ==> #[trigger] file_name_of(
                title,
            ).unwrap()[j] != title[i],
{
    let text = decoded_title(title).unwrap();
    let name = file_name_of(title).unwrap();
    lemma_reserved_char_survives(title, i);
    let m = choose|m: int| 0 <= m < text.len() && #[trigger] text[m] == title[i];
    lemma_file_name_spells_reserved(title, m);
    lemma_file_name_has_no_reserved(title);
    let at = crate::title::escaped(text.take(m)).len() as int;
    assert(name.subrange(at, at + 3) == escape_of(title[i]));
}

/// `%` is the one character with the code 0x25.
proof fn lemma_percent_code(c: char)
    ensures
        c as u32 == 0x25 <==> c == '%',
{
}

/// A text without `%` has no byte 0x25 in its UTF-8 encoding: the bytes of
/// a character beyond ASCII are all beyond ASCII too.
proof fn lemma_no_percent_byte(text: Seq<char>)
    requires
        forall|i: int| 0 <= i < text.len() ==> #[trigger] text[i] != '%',
    ensures
        forall|j: int|
            0 <= j < encode_utf8(text).len() ==> #[trigger] encode_utf8(text)[j] != 0x25,
    decreases text.len(),
{
    if text.len() > 0 {
        let bytes = encode_utf8(text);
        let first = encode_scalar(text[0] as u32);
        let behind = text.drop_first();
        let rest = encode_utf8(behind);
        assert(bytes == first + rest);
        encode_utf8_first_scalar(text);
        lemma_percent_code(text[0]);
        assert(text[0] != '%');
        assert forall|i: int| 0 <= i < behind.len() implies #[trigger] behind[i] != '%' by {
            assert(behind[i] == text[i + 1]);
        }
        lemma_no_percent_byte(behind);
        assert forall|j: int| 0 <= j < bytes.len() implies #[trigger] bytes[j] != 0x25 by {
            if j < first.len() {
                if is_leading_byte_width_1(bytes[0]) {
                    let b = bytes[0];
                    assert(b & 0x7F == b) by (bit_vector)
                        requires
                            b < 0x80,
                    ;
                }
            } else {
                assert(bytes[j] == rest[j - first.len()]);
            }
        }
    }
}

/// A title without `%` holds no percent escape: it decodes to itself.
pub proof fn lemma_title_without_percent_decodes_to_itself(title: Seq<char>)
    requires
        forall|i: int| 0 <= i < title.len() ==> #[trigger] title[i] != '%',
    ensures
        decoded_title(title) == Some(title),
{
    lemma_no_percent_byte(title);
    lemma_decoding_without_percent(encode_utf8(title));
    encode_utf8_valid_utf8(title);
    encode_utf8_decode_utf8(title);
}

/// The file name of a title that holds neither a reserved character nor
/// `%` is the title and the suffix.
pub proof fn lemma_file_name_of_simple_title(title: Seq<char>)
    requires
        forall|i: int|
            0 <= i < title.len() ==> !is_reserved(#[trigger] title[i]) && title[i] != '%',
    ensures
        file_name_of(title) == Some(title + file_suffix()),
{
    lemma_no_percent_byte(title);
    lemma_decoding_without_percent(encode_utf8(title));
    lemma_file_name_of_plain_title(title);
}

} // verus!
