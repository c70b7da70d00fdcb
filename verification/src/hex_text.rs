//! Hexadecimal text: what it is, and the two calls that produce and read it.

use vstd::prelude::*;

verus! {

/// The lower-case hexadecimal digit, as an ASCII byte, of a value below sixteen.
pub open spec fn hex_digit(nibble: int) -> u8 {
    if nibble < 10 {
        (48 + nibble) as u8
    } else {
        (87 + nibble) as u8
    }
}

/// The hexadecimal text of `data`: two lower-case digits for each byte, the
/// high half first.
pub open spec fn hex_text(data: Seq<u8>) -> Seq<u8> {
    Seq::new(
        2 * data.len(),
        |i: int|
            hex_digit(
                if i % 2 == 0 {
                    data[i / 2] as int / 16
                } else {
                    data[i / 2] as int % 16
                },
            ),
    )
}

/// The characters that a sequence of ASCII bytes spells.
pub open spec fn ascii_string(bytes: Seq<u8>) -> Seq<char> {
    Seq::new(bytes.len(), |i: int| bytes[i] as char)
}

/// The value of a hexadecimal digit of either case, or `None` for any other
/// byte.
pub open spec fn hex_value(digit: u8) -> Option<int> {
    if 48 <= digit <= 57 {
        Some(digit - 48)
    } else if 97 <= digit <= 102 {
        Some(digit - 87)
    } else if 65 <= digit <= 70 {
        Some(digit - 55)
    } else {
        None
    }
}

/// Whether `text` is an even number of hexadecimal digits.
pub open spec fn is_hex_text(text: Seq<u8>) -> bool {
    &&& text.len() % 2 == 0
    &&& forall|i: int| 0 <= i < text.len() ==> hex_value(#[trigger] text[i]) is Some
}

/// The bytes that hexadecimal text stands for, one for each pair of digits.
pub open spec fn hex_bytes(text: Seq<u8>) -> Seq<u8>
    recommends
        is_hex_text(text),
{
    Seq::new(
        text.len() / 2,
        |i: int| (16 * hex_value(text[2 * i])->0 + hex_value(text[2 * i + 1])->0) as u8,
    )
}

/// A hexadecimal digit reads back as the value it was written for.
pub proof fn lemma_hex_digit_value(nibble: int)
    requires
        0 <= nibble < 16,
    ensures
        hex_value(hex_digit(nibble)) == Some(nibble),
        hex_digit(nibble) < 128,
        hex_digit(nibble) != 58,
{
}

/// Hexadecimal text decodes to the bytes it was written for, so two byte
/// strings with the same text are the same.
pub proof fn lemma_hex_text_decodes(data: Seq<u8>)
    ensures
        is_hex_text(hex_text(data)),
        hex_bytes(hex_text(data)) == data,
{
    let text = hex_text(data);
    assert forall|i: int| 0 <= i < text.len() implies hex_value(#[trigger] text[i]) is Some by {
        let byte = data[i / 2] as int;
        lemma_hex_digit_value(byte / 16);
        lemma_hex_digit_value(byte % 16);
    }
    assert forall|k: int| 0 <= k < data.len() implies hex_bytes(text)[k] == data[k] by {
        let byte = data[k] as int;
        lemma_hex_digit_value(byte / 16);
        lemma_hex_digit_value(byte % 16);
        assert(text[2 * k] == hex_digit(byte / 16));
        assert(text[2 * k + 1] == hex_digit(byte % 16));
    }
    assert(hex_bytes(text) =~= data);
}

/// Hexadecimal text is ASCII and holds no colon.
pub proof fn lemma_hex_text_plain(data: Seq<u8>)
    ensures
        forall|i: int|
            0 <= i < hex_text(data).len() ==> #[trigger] hex_text(data)[i] < 128 && hex_text(
                data,
            )[i] != 58,
{
    let text = hex_text(data);
    assert forall|i: int| 0 <= i < text.len() implies #[trigger] text[i] < 128 && text[i]
        != 58 by {
        let byte = data[i / 2] as int;
        lemma_hex_digit_value(byte / 16);
        lemma_hex_digit_value(byte % 16);
    }
}

/// The UTF-8 bytes of the string that ASCII bytes spell are those bytes.
pub proof fn lemma_ascii_string_bytes(bytes: Seq<u8>)
    requires
        forall|i: int| 0 <= i < bytes.len() ==> #[trigger] bytes[i] < 128,
    ensures
        vstd::utf8::encode_utf8(ascii_string(bytes)) == bytes,
{
    let chars = ascii_string(bytes);
    assert(vstd::utf8::is_ascii_chars(chars));
    vstd::utf8::is_ascii_chars_encode_utf8(chars);
    let encoded = vstd::utf8::encode_utf8(chars);
    assert forall|i: int| 0 <= i < bytes.len() implies encoded[i] == bytes[i] by {
        assert(chars[i] as u8 == encoded[i]);
    }
    assert(encoded =~= bytes);
}

/// The error of `hex::decode`. Nothing is read from it: the library reports
/// every failure to decode as one kind of error.
#[verifier::external_type_specification]
#[verifier::external_body]
pub struct ExFromHexError(hex::FromHexError);

/// `hex::encode`: the string of two lower-case hexadecimal digits for each
/// byte of `data`, the high half of a byte before the low half.
#[verifier::external_body]
pub(crate) fn encode(data: &[u8]) -> (text: String)
    ensures
        text@ == ascii_string(hex_text(data@)),
{
    hex::encode(data)
}

/// `hex::decode`: succeeds exactly on an even number of hexadecimal digits of
/// either case, and then gives one byte for each pair, the first digit of a
/// pair being the high half.
#[verifier::external_body]
pub(crate) fn decode(text: &[u8]) -> (decoded: Result<Vec<u8>, hex::FromHexError>)
    ensures
        decoded is Ok <==> is_hex_text(text@),
        decoded matches Ok(bytes) ==> bytes@ == hex_bytes(text@),
{
    hex::decode(text)
}

} // verus!
