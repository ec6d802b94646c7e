//! Percent escapes in page titles, as the crate `percent_encoding` writes
//! and reads them.

use percent_encoding::percent_decode;
use percent_encoding::percent_encode;
use percent_encoding::CONTROLS;
use vstd::prelude::*;
use vstd::utf8::*;

verus! {

/// The error that tells that bytes are not UTF-8: `std::str::Utf8Error`.
#[verifier::external_type_specification]
#[verifier::external_body]
pub struct ExUtf8Error(std::str::Utf8Error);

/// The digit of value `n` in upper-case hexadecimal.
pub open spec fn upper_hex_digit(n: int) -> char
    recommends
        0 <= n < 16,
{
    seq!['0', '1', '2', '3', '4', '5', '6', '7', '8', '9', 'A', 'B', 'C', 'D', 'E', 'F'][n]
}

/// Whether a byte is written as an escape in the query of a page address:
/// the C0 controls, DEL, and every byte that is not ASCII.
pub open spec fn escaped_in_query(byte: u8) -> bool {
    byte <= 0x1F || byte >= 0x7F
}

/// One byte as it stands in the query of a page address: `%` and two
/// upper-case hexadecimal digits where it is escaped, else itself.
pub open spec fn query_byte(byte: u8) -> Seq<char> {
    if escaped_in_query(byte) {
        seq!['%', upper_hex_digit(byte as int / 16), upper_hex_digit(byte as int % 16)]
    } else {
        seq![byte as char]
    }
}

/// `bytes` as they stand in the query of a page address, byte by byte.
pub open spec fn query_encoded(bytes: Seq<u8>) -> Seq<char>
    decreases bytes.len(),
{
    if bytes.len() == 0 {
        Seq::empty()
    } else {
        query_encoded(bytes.drop_last()) + query_byte(bytes.last())
    }
}

/// The value of a hexadecimal digit, upper or lower case.
pub open spec fn hex_value(byte: u8) -> Option<u8> {
    if 0x30 <= byte <= 0x39 {
        Some((byte - 0x30) as u8)
    } else if 0x41 <= byte <= 0x46 {
        Some((byte - 0x41 + 10) as u8)
    } else if 0x61 <= byte <= 0x66 {
        Some((byte - 0x61 + 10) as u8)
    } else {
        None
    }
}

/// Whether `bytes` start with a percent escape: `%` and two hexadecimal
/// digits.
pub open spec fn starts_with_escape(bytes: Seq<u8>) -> bool {
    bytes.len() >= 3 && bytes[0] == 0x25 && hex_value(bytes[1]).is_some() && hex_value(
        bytes[2],
    ).is_some()
}

/// `bytes` with every percent escape replaced by the byte it spells, read
/// from left to right. A `%` that starts no escape stays.
pub open spec fn percent_decoded(bytes: Seq<u8>) -> Seq<u8>
    decreases bytes.len(),
{
    if bytes.len() == 0 {
        Seq::empty()
    } else if starts_with_escape(bytes) {
        seq![(hex_value(bytes[1]).unwrap() * 16 + hex_value(bytes[2]).unwrap()) as u8]
            + percent_decoded(bytes.skip(3))
    } else {
        seq![bytes[0]] + percent_decoded(bytes.drop_first())
    }
}

/// `percent_encoding::percent_encode` with the set `CONTROLS`, written out
/// through its `Display`. Its documentation: bytes that are not ASCII and
/// bytes of the set are encoded, the set being 0x00 to 0x1F and 0x7F; an
/// encoded byte is `%` and its value in two upper-case hexadecimal digits;
/// every other byte stands for itself.
#[verifier::external_body]
pub(crate) fn encode_for_query(input: &[u8]) -> (r: String)
    ensures
        r@ == query_encoded(input@),
{
    percent_encode(input, CONTROLS).to_string()
}

/// `percent_encoding::percent_decode` followed by `decode_utf8` on what it
/// returns. Its documentation: any `%` followed by two hexadecimal digits is
/// decoded, and the decoded bytes are read as UTF-8, which fails where they
/// are not well formed.
#[verifier::external_body]
pub(crate) fn decode_to_text(input: &[u8]) -> (r: Result<String, std::str::Utf8Error>)
    ensures
        match r {
            Ok(text) => valid_utf8(percent_decoded(input@)) && text@ == decode_utf8(
                percent_decoded(input@),
            ),
            Err(_) => !valid_utf8(percent_decoded(input@)),
        },
{
    percent_decode(input).decode_utf8().map(|text| text.into_owned())
}

/// Bytes without a `%` hold no escape, so decoding leaves them as they are.
pub proof fn lemma_decoding_without_percent(bytes: Seq<u8>)
    requires
        forall|i: int| 0 <= i < bytes.len() ==> #[trigger] bytes[i] != 0x25,
    ensures
        percent_decoded(bytes) == bytes,
    decreases bytes.len(),
{
    if bytes.len() > 0 {
        let rest = bytes.drop_first();
        assert forall|i: int| 0 <= i < rest.len() implies #[trigger] rest[i] != 0x25 by {
            assert(rest[i] == bytes[i + 1]);
        }
        lemma_decoding_without_percent(rest);
        assert(bytes[0] != 0x25);
        assert(seq![bytes[0]] + rest =~= bytes);
    }
}

} // verus!
