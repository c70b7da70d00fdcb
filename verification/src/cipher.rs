//! The block cipher behind the payload codec: AES-128 in CBC mode with PKCS#7
//! padding, and the source of fresh initialization vectors.
//!
//! The cipher itself is not described here. Its two results have names, and
//! the calls below say how the names relate.

use aes::Aes128;
use block_modes::block_padding::Pkcs7;
use block_modes::{BlockMode, Cbc};
use rand::Rng;
use vstd::prelude::*;

verus! {

/// What AES-128 in CBC mode makes of `plaintext` under `key` and `iv`, after
/// padding it by PKCS#7 to a whole number of blocks.
pub uninterp spec fn aes128_cbc_encrypted(key: Seq<u8>, iv: Seq<u8>, plaintext: Seq<u8>) -> Seq<u8>;

/// What AES-128 in CBC mode recovers from `ciphertext` under `key` and `iv`:
/// the text without its padding, or `None` where `ciphertext` is no whole
/// number of blocks or what it decrypts to does not end in PKCS#7 padding.
pub uninterp spec fn aes128_cbc_decrypted(key: Seq<u8>, iv: Seq<u8>, ciphertext: Seq<u8>) -> Option<
    Seq<u8>,
>;

/// The error of `BlockMode::decrypt_vec`, which carries nothing.
#[verifier::external_type_specification]
#[verifier::external_body]
pub struct ExBlockModeError(block_modes::BlockModeError);

/// `BlockMode::encrypt_vec` of `Cbc<Aes128, Pkcs7>`: the named ciphertext. It
/// is the plaintext padded to the next whole number of sixteen-byte blocks (a
/// full block of padding where the length already is one), and decrypting it
/// under the same key and vector gives the plaintext back.
#[verifier::external_body]
pub(crate) fn cbc_encrypt(key: &[u8; 16], iv: &[u8; 16], plaintext: &[u8]) -> (ciphertext: Vec<u8>)
    ensures
        ciphertext@ == aes128_cbc_encrypted(key@, iv@, plaintext@),
        ciphertext@.len() == 16 * (plaintext@.len() / 16 + 1),
        aes128_cbc_decrypted(key@, iv@, ciphertext@) == Some(plaintext@),
{
    Cbc::<Aes128, Pkcs7>::new_fix(key.into(), iv.into()).encrypt_vec(plaintext)
}

/// `BlockMode::decrypt_vec` of `Cbc<Aes128, Pkcs7>`: the named plaintext, and
/// an error exactly where there is none.
#[verifier::external_body]
pub(crate) fn cbc_decrypt(key: &[u8; 16], iv: &[u8; 16], ciphertext: &[u8]) -> (plaintext: Result<
    Vec<u8>,
    block_modes::BlockModeError,
>)
    ensures
        match plaintext {
            Ok(bytes) => aes128_cbc_decrypted(key@, iv@, ciphertext@) == Some(bytes@),
            Err(_) => aes128_cbc_decrypted(key@, iv@, ciphertext@) is None,
        },
{
    Cbc::<Aes128, Pkcs7>::new_fix(key.into(), iv.into()).decrypt_vec(ciphertext)
}

/// `rand::thread_rng` and `Rng::gen`: sixteen bytes from the thread's random
/// generator. Nothing is known of them but their number.
#[verifier::external_body]
pub(crate) fn fresh_iv() -> (iv: [u8; 16]) {
    rand::thread_rng().gen()
}

} // verus!
