//! The payload codec: a text goes out as the wire string
//! `hex(iv) ":" hex(ciphertext)` and comes back from one.

use crate::cipher::{aes128_cbc_decrypted, aes128_cbc_encrypted, cbc_decrypt, cbc_encrypt, fresh_iv};
use crate::error::ErrorKind;
use crate::hex_text::{
    ascii_string, decode, encode, hex_bytes, hex_text, hex_value, is_hex_text,
    lemma_ascii_string_bytes, lemma_hex_text_decodes, lemma_hex_text_plain,
};
use vstd::prelude::*;
use vstd::slice::slice_subrange;
use vstd::string::*;
use vstd::utf8::*;

verus! {

/// The byte that parts the two segments of a wire string.
pub const COLON: u8 = 58;

/// The number of hexadecimal digits that an initialization vector takes.
pub const IV_DIGITS: usize = 32;

/// The bytes of the wire string that carries `ciphertext` with the vector it
/// was made under.
pub open spec fn wire_text(iv: Seq<u8>, ciphertext: Seq<u8>) -> Seq<u8> {
    hex_text(iv) + seq![COLON] + hex_text(ciphertext)
}

/// The wire string of `plaintext` under `key` and `iv`.
pub open spec fn wire_string(key: Seq<u8>, iv: Seq<u8>, plaintext: Seq<char>) -> Seq<char> {
    ascii_string(wire_text(iv, aes128_cbc_encrypted(key, iv, encode_utf8(plaintext))))
}

/// The number of characters of the wire string of `plaintext`: the digits of
/// the vector, the colon, and two digits for each byte of the text padded to
/// the next whole number of blocks.
pub open spec fn wire_len(plaintext: Seq<char>) -> nat {
    (IV_DIGITS + 1 + 32 * (encode_utf8(plaintext).len() / 16 + 1)) as nat
}

/// Whether `wire` is what encrypting `plaintext` under `key` may give: its
/// wire string under some vector of sixteen bytes.
pub open spec fn is_encryption_of(key: Seq<u8>, wire: Seq<char>, plaintext: Seq<char>) -> bool {
    exists|iv: Seq<u8>| iv.len() == 16 && wire == #[trigger] wire_string(key, iv, plaintext)
}

/// Whether `text` has the shape of a wire string: thirty-two hexadecimal
/// digits, a colon, and a non-empty even number of hexadecimal digits.
pub open spec fn is_wire_text(text: Seq<u8>) -> bool {
    &&& text.len() > IV_DIGITS + 1
    &&& text[IV_DIGITS as int] == COLON
    &&& is_hex_text(text.subrange(0, IV_DIGITS as int))
    &&& is_hex_text(text.subrange(IV_DIGITS + 1, text.len() as int))
}

/// The initialization vector that a wire string carries.
pub open spec fn wire_iv(text: Seq<u8>) -> Seq<u8>
    recommends
        is_wire_text(text),
{
    hex_bytes(text.subrange(0, IV_DIGITS as int))
}

/// The ciphertext that a wire string carries.
pub open spec fn wire_ciphertext(text: Seq<u8>) -> Seq<u8>
    recommends
        is_wire_text(text),
{
    hex_bytes(text.subrange(IV_DIGITS + 1, text.len() as int))
}

/// What decrypting the string `wire` under `key` gives: the text it carries,
/// or the kind of error that stands in the way. The shape is judged first,
/// then the cipher's padding, then the encoding of the recovered bytes.
pub open spec fn decrypted(key: Seq<u8>, wire: Seq<char>) -> Result<Seq<char>, ErrorKind> {
    let text = encode_utf8(wire);
    if !is_wire_text(text) {
        Err(ErrorKind::MalformedCiphertext)
    } else {
        match aes128_cbc_decrypted(key, wire_iv(text), wire_ciphertext(text)) {
            None => Err(ErrorKind::DecryptionError),
            Some(bytes) => if valid_utf8(bytes) {
                Ok(decode_utf8(bytes))
            } else {
                Err(ErrorKind::InvalidEncoding)
            },
        }
    }
}

/// A result with its text read as characters.
pub open spec fn text_of(outcome: Result<String, ErrorKind>) -> Result<Seq<char>, ErrorKind> {
    match outcome {
        Ok(text) => Ok(text@),
        Err(kind) => Err(kind),
    }
}

/// Hexadecimal text holds no colon.
pub proof fn lemma_hex_text_has_no_colon(text: Seq<u8>)
    requires
        is_hex_text(text),
    ensures
        forall|i: int| 0 <= i < text.len() ==> #[trigger] text[i] != COLON,
{
    assert forall|i: int| 0 <= i < text.len() implies #[trigger] text[i] != COLON by {
        assert(hex_value(text[i]) is Some);
    }
}

/// The text of a wire string reads back as the vector and the ciphertext it
/// was written for, and the string of that text has exactly these bytes.
pub proof fn lemma_wire_text_parses(iv: Seq<u8>, ciphertext: Seq<u8>)
    requires
        iv.len() == 16,
        ciphertext.len() > 0,
    ensures
        is_wire_text(wire_text(iv, ciphertext)),
        wire_iv(wire_text(iv, ciphertext)) == iv,
        wire_ciphertext(wire_text(iv, ciphertext)) == ciphertext,
        encode_utf8(ascii_string(wire_text(iv, ciphertext))) == wire_text(iv, ciphertext),
{
    let text = wire_text(iv, ciphertext);
    lemma_hex_text_decodes(iv);
    lemma_hex_text_decodes(ciphertext);
    assert(text.subrange(0, IV_DIGITS as int) =~= hex_text(iv));
    assert(text.subrange(IV_DIGITS + 1, text.len() as int) =~= hex_text(ciphertext));
    lemma_wire_text_is_ascii(iv, ciphertext);
}

/// Whether `text` holds a colon at `at` and nowhere else.
pub open spec fn is_only_colon(text: Seq<u8>, at: int) -> bool {
    &&& 0 <= at < text.len()
    &&& text[at] == COLON
    &&& forall|i: int| 0 <= i < text.len() && i != at ==> text[i] != COLON
}

/// In text of the shape of a wire string the one colon stands after the
/// thirty-two digits of the vector.
pub proof fn lemma_wire_text_colon(text: Seq<u8>)
    requires
        is_wire_text(text),
    ensures
        is_only_colon(text, IV_DIGITS as int),
{
    let head = text.subrange(0, IV_DIGITS as int);
    let tail = text.subrange(IV_DIGITS + 1, text.len() as int);
    lemma_hex_text_has_no_colon(head);
    lemma_hex_text_has_no_colon(tail);
    assert forall|i: int| 0 <= i < text.len() && i != 32 implies text[i] != COLON by {
        if i < 32 {
            assert(text[i] == head[i]);
        } else {
            assert(text[i] == tail[i - 33]);
        }
    }
}

/// Malformed input is rejected as such: a string without exactly one colon,
/// one with a segment beside its colon that is not hexadecimal text, and one
/// whose first segment is not thirty-two digits long all decrypt to
/// `MalformedCiphertext`, whatever the key.
pub proof fn lemma_malformed_is_rejected(key: Seq<u8>, wire: Seq<char>)
    requires
        ({
            let text = encode_utf8(wire);
            ||| !exists|at: int| is_only_colon(text, at)
            ||| exists|at: int|
                0 <= at < text.len() && text[at] == COLON && (at != IV_DIGITS || !is_hex_text(
                    text.subrange(0, at),
                ) || !is_hex_text(text.subrange(at + 1, text.len() as int)))
        }),
    ensures
        decrypted(key, wire) == Err::<Seq<char>, ErrorKind>(ErrorKind::MalformedCiphertext),
{
    let text = encode_utf8(wire);
    if is_wire_text(text) {
        lemma_wire_text_colon(text);
        assert(is_only_colon(text, IV_DIGITS as int));
    }
}

/// A wire string whose ciphertext segment is empty is malformed too.
pub proof fn lemma_empty_ciphertext_is_rejected(key: Seq<u8>, wire: Seq<char>)
    requires
        encode_utf8(wire).len() <= IV_DIGITS + 1,
    ensures
        decrypted(key, wire) == Err::<Seq<char>, ErrorKind>(ErrorKind::MalformedCiphertext),
{
}

/// A string of the right shape that the cipher rejects decrypts to
/// `DecryptionError`, never to a text: corrupted ciphertext is not turned
/// into garbage. And a text comes out only of a string of the right shape
/// that the cipher accepts.
pub proof fn lemma_rejected_ciphertext_is_an_error(key: Seq<u8>, wire: Seq<char>)
    ensures
        is_wire_text(encode_utf8(wire)) && aes128_cbc_decrypted(
            key,
            wire_iv(encode_utf8(wire)),
            wire_ciphertext(encode_utf8(wire)),
        ) is None ==> decrypted(key, wire) == Err::<Seq<char>, ErrorKind>(
            ErrorKind::DecryptionError,
        ),
        decrypted(key, wire) is Ok ==> is_wire_text(encode_utf8(wire)) && aes128_cbc_decrypted(
            key,
            wire_iv(encode_utf8(wire)),
            wire_ciphertext(encode_utf8(wire)),
        ) is Some,
{
}

/// The round trip of the codec: a wire string decrypts to the text it was
/// made of, under the key and with the vector it was made with, wherever the
/// cipher recovers what it has encrypted.
pub proof fn lemma_round_trip(key: Seq<u8>, iv: Seq<u8>, plaintext: Seq<char>)
    requires
        iv.len() == 16,
        aes128_cbc_encrypted(key, iv, encode_utf8(plaintext)).len() > 0,
        aes128_cbc_decrypted(key, iv, aes128_cbc_encrypted(key, iv, encode_utf8(plaintext)))
            == Some(encode_utf8(plaintext)),
    ensures
        decrypted(key, wire_string(key, iv, plaintext)) == Ok::<Seq<char>, ErrorKind>(plaintext),
        is_encryption_of(key, wire_string(key, iv, plaintext), plaintext),
{
    lemma_wire_text_parses(iv, aes128_cbc_encrypted(key, iv, encode_utf8(plaintext)));
    encode_utf8_valid_utf8(plaintext);
    encode_utf8_decode_utf8(plaintext);
}

/// Decrypting gives a text or one of the three cryptographic kinds of error.
pub proof fn lemma_decrypted_kinds(key: Seq<u8>, wire: Seq<char>)
    ensures
        decrypted(key, wire) matches Err(kind) ==> kind.is_cryptographic(),
{
}

/// A wire string tells the vector it was made under: two messages encrypted
/// under different vectors never have the same wire string, whatever the key
/// and the texts.
pub proof fn lemma_wire_string_tells_vector(
    key: Seq<u8>,
    first_iv: Seq<u8>,
    second_iv: Seq<u8>,
    first_text: Seq<char>,
    second_text: Seq<char>,
)
    requires
        first_iv.len() == 16,
        second_iv.len() == 16,
        first_iv != second_iv,
    ensures
        wire_string(key, first_iv, first_text) != wire_string(key, second_iv, second_text),
{
    let first = wire_text(first_iv, aes128_cbc_encrypted(key, first_iv, encode_utf8(first_text)));
    let second = wire_text(
        second_iv,
        aes128_cbc_encrypted(key, second_iv, encode_utf8(second_text)),
    );
    lemma_wire_text_is_ascii(
        first_iv,
        aes128_cbc_encrypted(key, first_iv, encode_utf8(first_text)),
    );
    lemma_wire_text_is_ascii(
        second_iv,
        aes128_cbc_encrypted(key, second_iv, encode_utf8(second_text)),
    );
    if ascii_string(first) == ascii_string(second) {
        assert(first == second);
        assert(first.subrange(0, 32) =~= hex_text(first_iv));
        assert(second.subrange(0, 32) =~= hex_text(second_iv));
        lemma_hex_text_decodes(first_iv);
        lemma_hex_text_decodes(second_iv);
    }
}

/// The text of a wire string is ASCII, so its string has exactly these bytes.
pub proof fn lemma_wire_text_is_ascii(iv: Seq<u8>, ciphertext: Seq<u8>)
    ensures
        encode_utf8(ascii_string(wire_text(iv, ciphertext))) == wire_text(iv, ciphertext),
{
    let text = wire_text(iv, ciphertext);
    lemma_hex_text_plain(iv);
    lemma_hex_text_plain(ciphertext);
    assert forall|i: int| 0 <= i < text.len() implies #[trigger] text[i] < 128 by {
        let head = hex_text(iv);
        if i < head.len() {
            assert(text[i] == head[i]);
        } else if i > head.len() {
            assert(text[i] == hex_text(ciphertext)[i - head.len() - 1]);
        }
    }
    lemma_ascii_string_bytes(text);
}

/// The first colon of `text`, if it holds one.
fn find_colon(text: &[u8]) -> (found: Option<usize>)
    ensures
        match found {
            Some(at) => at < text@.len() && text@[at as int] == COLON && forall|i: int|
                0 <= i < at ==> text@[i] != COLON,
            None => forall|i: int| 0 <= i < text@.len() ==> text@[i] != COLON,
        },
{
    let mut at: usize = 0;
    while at < text.len()
        invariant
            at <= text@.len(),
            forall|i: int| 0 <= i < at ==> text@[i] != COLON,
        decreases text@.len() - at,
    {
        if text[at] == COLON {
            return Some(at);
        }
        at += 1;
    }
    None
}

/// The sixteen bytes of `bytes` as a block.
pub(crate) fn to_block(bytes: &[u8]) -> (block: [u8; 16])
    requires
        bytes@.len() == 16,
    ensures
        block@ == bytes@,
{
    let mut block: [u8; 16] = [0u8; 16];
    let mut i: usize = 0;
    while i < 16
        invariant
            i <= 16,
            bytes@.len() == 16,
            forall|j: int| 0 <= j < i ==> block@[j] == bytes@[j],
        decreases 16 - i,
    {
        block[i] = bytes[i];
        i += 1;
    }
    assert(block@ =~= bytes@);
    block
}

/// The error of `String::from_utf8`. Nothing is read from it.
#[verifier::external_type_specification]
#[verifier::external_body]
pub struct ExFromUtf8Error(std::string::FromUtf8Error);

/// `String::from_utf8`: succeeds exactly on valid UTF-8, and then gives the
/// string that these bytes encode.
#[verifier::external_body]
fn string_from_utf8(bytes: Vec<u8>) -> (text: Result<String, std::string::FromUtf8Error>)
    ensures
        text is Ok <==> valid_utf8(bytes@),
        text matches Ok(string) ==> string@ == decode_utf8(bytes@),
{
    String::from_utf8(bytes)
}

/// Encrypts `plaintext` under `key` with the initialization vector `iv`, and
/// gives the wire string: the vector and the ciphertext in lower-case
/// hexadecimal digits with a colon between them. The vector must be fresh for
/// every message; [`encrypt_message`] draws one.
pub fn encrypt_with_iv(key: &[u8; 16], iv: &[u8; 16], plaintext: &str) -> (wire: String)
    ensures
        wire@ == wire_string(key@, iv@, plaintext@),
        wire@.len() == wire_len(plaintext@),
        is_encryption_of(key@, wire@, plaintext@),
        decrypted(key@, wire@) == Ok::<Seq<char>, ErrorKind>(plaintext@),
{
    let ciphertext = cbc_encrypt(key, iv, plaintext.as_bytes());
    let iv_digits = encode(iv.as_slice());
    let ciphertext_digits = encode(ciphertext.as_slice());
    let wire = iv_digits.concat(":").concat(ciphertext_digits.as_str());
    proof {
        reveal_strlit(":");
        assert(wire@ =~= ascii_string(wire_text(iv@, ciphertext@)));
        lemma_round_trip(key@, iv@, plaintext@);
    }
    wire
}

/// Encrypts `plaintext` under `key` with a vector drawn for this one message.
/// Whatever the vector, the result is a wire string of `plaintext`, and it
/// decrypts to `plaintext` under the same key.
pub fn encrypt_message(key: &[u8; 16], plaintext: &str) -> (wire: String)
    ensures
        is_encryption_of(key@, wire@, plaintext@),
        wire@.len() == wire_len(plaintext@),
        decrypted(key@, wire@) == Ok::<Seq<char>, ErrorKind>(plaintext@),
{
    let iv = fresh_iv();
    encrypt_with_iv(key, &iv, plaintext)
}

/// Decrypts the wire string `encrypted` under `key`.
///
/// A string that is not thirty-two hexadecimal digits, a colon and a
/// non-empty even number of hexadecimal digits is `MalformedCiphertext`. One
/// that the cipher rejects is `DecryptionError`: no text is made up in its
/// place. Bytes that are not UTF-8 are `InvalidEncoding`.
pub fn decrypt_message(key: &[u8; 16], encrypted: &str) -> (plaintext: Result<String, ErrorKind>)
    ensures
        text_of(plaintext) == decrypted(key@, encrypted@),
{
    let text = encrypted.as_bytes();
    let end = text.len();
    let colon = match find_colon(text) {
        Some(at) => at,
        None => {
            return Err(ErrorKind::MalformedCiphertext);
        },
    };
    let iv_digits = slice_subrange(text, 0, colon);
    let ciphertext_digits = slice_subrange(text, colon + 1, end);
    proof {
        if is_wire_text(text@) {
            lemma_hex_text_has_no_colon(text@.subrange(0, IV_DIGITS as int));
            assert forall|i: int| 0 <= i < 32 implies text@[i] != COLON by {
                assert(text@[i] == text@.subrange(0, IV_DIGITS as int)[i]);
            }
            assert(colon == 32);
        }
    }
    let iv_bytes = match decode(iv_digits) {
        Ok(bytes) => bytes,
        Err(_) => {
            return Err(ErrorKind::MalformedCiphertext);
        },
    };
    let ciphertext = match decode(ciphertext_digits) {
        Ok(bytes) => bytes,
        Err(_) => {
            return Err(ErrorKind::MalformedCiphertext);
        },
    };
    if iv_bytes.len() != 16 || ciphertext.len() == 0 {
        return Err(ErrorKind::MalformedCiphertext);
    }
    assert(colon == 32);
    assert(is_wire_text(text@));
    let iv = to_block(iv_bytes.as_slice());
    let bytes = match cbc_decrypt(key, &iv, ciphertext.as_slice()) {
        Ok(bytes) => bytes,
        Err(_) => {
            return Err(ErrorKind::DecryptionError);
        },
    };
    match string_from_utf8(bytes) {
        Ok(string) => Ok(string),
        Err(_) => Err(ErrorKind::InvalidEncoding),
    }
}

} // verus!
