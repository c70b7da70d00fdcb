use aes::Aes128;
use block_modes::block_padding::Pkcs7;
use block_modes::{BlockMode, Cbc};
use grpc_simulation::crypto::{decrypt_message, encrypt_message, encrypt_with_iv};
use grpc_simulation::error::ErrorKind;

const KEY: [u8; 16] = [
    0x00, 0x01, 0x02, 0x03, 0x04, 0x05, 0x06, 0x07, 0x08, 0x09, 0x0a, 0x0b, 0x0c, 0x0d, 0x0e, 0x0f,
];

const IV: [u8; 16] = [
    0xf0, 0xf1, 0xf2, 0xf3, 0xf4, 0xf5, 0xf6, 0xf7, 0xf8, 0xf9, 0xfa, 0xfb, 0xfc, 0xfd, 0xfe, 0xff,
];

const IV_DIGITS: &str = "f0f1f2f3f4f5f6f7f8f9fafbfcfdfeff";
const WIRE: &str = "f0f1f2f3f4f5f6f7f8f9fafbfcfdfeff:1b7a4c403124ae2fb52bedc534d82fa8";

fn wire_of_bytes(bytes: &[u8]) -> String {
    let cipher = Cbc::<Aes128, Pkcs7>::new_from_slices(&KEY, &IV).unwrap();
    format!("{}:{}", IV_DIGITS, hex::encode(cipher.encrypt_vec(bytes)))
}

#[test]
fn known_vector_gives_known_wire_string() {
    assert_eq!(encrypt_with_iv(&KEY, &IV, "Hello world!"), WIRE);
}

#[test]
fn known_wire_string_decrypts() {
    assert_eq!(decrypt_message(&KEY, WIRE), Ok("Hello world!".to_string()));
}

#[test]
fn upper_case_digits_are_read() {
    let upper = WIRE.to_uppercase();
    assert_eq!(decrypt_message(&KEY, &upper), Ok("Hello world!".to_string()));
    let mixed = "F0f1F2f3F4f5F6f7F8f9FAfbFCfdFEff:1B7a4C403124aE2fB52bEDc534D82fA8";
    assert_eq!(decrypt_message(&KEY, mixed), Ok("Hello world!".to_string()));
}

#[test]
fn wire_string_has_lower_case_vector_colon_and_padded_ciphertext() {
    let wire = encrypt_message(&KEY, "Hello world!");
    assert_eq!(wire.len(), 32 + 1 + 32);
    assert_eq!(wire.as_bytes()[32], b':');
    assert_eq!(wire.matches(':').count(), 1);
    assert!(wire
        .bytes()
        .all(|b| b == b':' || b.is_ascii_digit() || (b'a'..=b'f').contains(&b)));
}

#[test]
fn ciphertext_grows_by_whole_blocks() {
    assert_eq!(encrypt_with_iv(&KEY, &IV, "").len(), 33 + 32);
    assert_eq!(encrypt_with_iv(&KEY, &IV, "123456789012345").len(), 33 + 32);
    assert_eq!(encrypt_with_iv(&KEY, &IV, "1234567890123456").len(), 33 + 64);
    assert_eq!(encrypt_with_iv(&KEY, &IV, "12345678901234567").len(), 33 + 64);
}

#[test]
fn round_trip_with_fresh_vector() {
    for text in ["", "a", "Hello from client!", "grüße, 世界 🌍", "1234567890123456"] {
        let wire = encrypt_message(&KEY, text);
        assert_eq!(decrypt_message(&KEY, &wire), Ok(text.to_string()));
    }
}

#[test]
fn round_trip_with_given_vector() {
    let zero_key = [0u8; 16];
    let wire = encrypt_with_iv(&zero_key, &IV, "colon : inside");
    assert_eq!(decrypt_message(&zero_key, &wire), Ok("colon : inside".to_string()));
}

#[test]
fn two_encryptions_differ_and_both_decrypt() {
    let first = encrypt_message(&KEY, "same text");
    let second = encrypt_message(&KEY, "same text");
    assert_ne!(first, second);
    assert_ne!(first[..32], second[..32]);
    assert_eq!(decrypt_message(&KEY, &first), Ok("same text".to_string()));
    assert_eq!(decrypt_message(&KEY, &second), Ok("same text".to_string()));
}

#[test]
fn different_vectors_give_different_wire_strings() {
    let other_iv = [1u8; 16];
    let first = encrypt_with_iv(&KEY, &IV, "same text");
    let second = encrypt_with_iv(&KEY, &other_iv, "same text");
    assert_ne!(first, second);
    assert_eq!(&second[..33], "01010101010101010101010101010101:");
}

#[test]
fn string_without_colon_is_malformed() {
    assert_eq!(decrypt_message(&KEY, ""), Err(ErrorKind::MalformedCiphertext));
    assert_eq!(
        decrypt_message(&KEY, "f0f1f2f3f4f5f6f7f8f9fafbfcfdfeff1b7a4c403124ae2fb52bedc534d82fa8"),
        Err(ErrorKind::MalformedCiphertext)
    );
    assert_eq!(decrypt_message(&KEY, "Hello world!"), Err(ErrorKind::MalformedCiphertext));
}

#[test]
fn string_with_two_colons_is_malformed() {
    assert_eq!(
        decrypt_message(
            &KEY,
            "f0f1f2f3f4f5f6f7f8f9fafbfcfdfeff:1b7a4c403124ae2f:b52bedc534d82fa8"
        ),
        Err(ErrorKind::MalformedCiphertext)
    );
    assert_eq!(
        decrypt_message(
            &KEY,
            "f0f1f2f3f4f5f6f7:f8f9fafbfcfdfeff:1b7a4c403124ae2fb52bedc534d82fa8"
        ),
        Err(ErrorKind::MalformedCiphertext)
    );
    assert_eq!(decrypt_message(&KEY, "::"), Err(ErrorKind::MalformedCiphertext));
}

#[test]
fn segment_that_is_not_hexadecimal_is_malformed() {
    assert_eq!(
        decrypt_message(&KEY, "g0f1f2f3f4f5f6f7f8f9fafbfcfdfeff:1b7a4c403124ae2fb52bedc534d82fa8"),
        Err(ErrorKind::MalformedCiphertext)
    );
    assert_eq!(
        decrypt_message(&KEY, "f0f1f2f3f4f5f6f7f8f9fafbfcfdfeff:1b7a4c403124ae2fb52bedc534d82fz8"),
        Err(ErrorKind::MalformedCiphertext)
    );
    assert_eq!(
        decrypt_message(&KEY, "f0f1f2f3f4f5f6f7f8f9fafbfcfdfeff:1b7a4c403124ae2fb52bedc534d82fa"),
        Err(ErrorKind::MalformedCiphertext)
    );
    assert_eq!(
        decrypt_message(&KEY, "f0f1f2f3f4f5f6f7f8f9fafbfcfdfeff:1b7a4c403124ae2fb52bedc534d82f ü"),
        Err(ErrorKind::MalformedCiphertext)
    );
}

#[test]
fn vector_of_wrong_length_is_malformed() {
    assert_eq!(
        decrypt_message(&KEY, "f0f1f2f3f4f5f6f7f8f9fafbfcfdfe:1b7a4c403124ae2fb52bedc534d82fa8"),
        Err(ErrorKind::MalformedCiphertext)
    );
    assert_eq!(
        decrypt_message(
            &KEY,
            "f0f1f2f3f4f5f6f7f8f9fafbfcfdfeff00:1b7a4c403124ae2fb52bedc534d82fa8"
        ),
        Err(ErrorKind::MalformedCiphertext)
    );
    assert_eq!(
        decrypt_message(&KEY, ":1b7a4c403124ae2fb52bedc534d82fa8"),
        Err(ErrorKind::MalformedCiphertext)
    );
}

#[test]
fn empty_ciphertext_is_malformed() {
    assert_eq!(
        decrypt_message(&KEY, "f0f1f2f3f4f5f6f7f8f9fafbfcfdfeff:"),
        Err(ErrorKind::MalformedCiphertext)
    );
}

#[test]
fn ciphertext_of_no_whole_block_is_a_decryption_error() {
    assert_eq!(
        decrypt_message(&KEY, "f0f1f2f3f4f5f6f7f8f9fafbfcfdfeff:1b7a4c403124ae2fb52bedc534d82f"),
        Err(ErrorKind::DecryptionError)
    );
    assert_eq!(
        decrypt_message(&KEY, "f0f1f2f3f4f5f6f7f8f9fafbfcfdfeff:1b"),
        Err(ErrorKind::DecryptionError)
    );
}

#[test]
fn tampered_ciphertext_is_a_decryption_error() {
    let flipped_last = "f0f1f2f3f4f5f6f7f8f9fafbfcfdfeff:1b7a4c403124ae2fb52bedc534d82fa9";
    assert_eq!(decrypt_message(&KEY, flipped_last), Err(ErrorKind::DecryptionError));
    let flipped_first = "f0f1f2f3f4f5f6f7f8f9fafbfcfdfeff:0b7a4c403124ae2fb52bedc534d82fa8";
    assert_eq!(decrypt_message(&KEY, flipped_first), Err(ErrorKind::DecryptionError));
}

#[test]
fn no_flip_of_a_ciphertext_digit_gives_the_text_back() {
    let mut rejected = 0;
    for at in 33..WIRE.len() {
        let mut bytes = WIRE.as_bytes().to_vec();
        bytes[at] = if bytes[at] == b'0' { b'1' } else { b'0' };
        let tampered = String::from_utf8(bytes).unwrap();
        let outcome = decrypt_message(&KEY, &tampered);
        assert_ne!(outcome, Ok("Hello world!".to_string()));
        assert_ne!(outcome, Err(ErrorKind::MalformedCiphertext));
        if outcome == Err(ErrorKind::DecryptionError) {
            rejected += 1;
        }
    }
    assert!(rejected >= 28);
}

#[test]
fn wrong_key_does_not_give_the_text_back() {
    let other = [7u8; 16];
    assert_eq!(decrypt_message(&other, WIRE), Err(ErrorKind::DecryptionError));
}

#[test]
fn bytes_that_are_not_utf8_are_an_invalid_encoding() {
    let wire = wire_of_bytes(&[0xff, 0xfe, 0x41]);
    assert_eq!(decrypt_message(&KEY, &wire), Err(ErrorKind::InvalidEncoding));
    let truncated = wire_of_bytes(&"世界".as_bytes()[..4]);
    assert_eq!(decrypt_message(&KEY, &truncated), Err(ErrorKind::InvalidEncoding));
}

#[test]
fn bytes_made_elsewhere_decrypt_to_their_text() {
    let wire = wire_of_bytes("made elsewhere".as_bytes());
    assert_eq!(decrypt_message(&KEY, &wire), Ok("made elsewhere".to_string()));
}

#[test]
fn error_kinds_have_their_names() {
    assert_eq!(ErrorKind::MalformedCiphertext.name(), "MalformedCiphertext");
    assert_eq!(ErrorKind::DecryptionError.name(), "DecryptionError");
    assert_eq!(ErrorKind::InvalidEncoding.name(), "InvalidEncoding");
    assert_eq!(ErrorKind::InvalidArgument.name(), "InvalidArgument");
    assert_eq!(ErrorKind::PeerDisconnected.name(), "PeerDisconnected");
    assert_eq!(ErrorKind::ConfigurationFatal.name(), "ConfigurationFatal");
}
