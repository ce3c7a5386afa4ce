//! Authenticated encryption and decryption of a byte blob under a derived
//! key, with a fresh random nonce per encryption.

use vstd::prelude::*;
use chacha20poly1305::aead::Aead;
use chacha20poly1305::KeyInit;

use crate::key::Key;
use crate::rng::random_bytes;

verus! {

/// What ChaCha20Poly1305 sealing produces from a 32-byte key, a 12-byte
/// nonce and a plaintext: the ciphertext with its 16-byte tag appended, a
/// function of those three inputs alone.
pub uninterp spec fn seal_of(key: Seq<u8>, nonce: Seq<u8>, plain: Seq<u8>) -> Seq<u8>;

/// What ChaCha20Poly1305 opening yields from a 32-byte key, a 12-byte nonce
/// and a ciphertext: the plaintext when the tag verifies, nothing when it
/// does not; a function of those three inputs alone.
pub uninterp spec fn open_of(key: Seq<u8>, nonce: Seq<u8>, cipher: Seq<u8>) -> Option<Seq<u8>>;

/// Authentication failed: the tag did not verify under the given key and
/// nonce. Deliberately carries no detail: a wrong password, a corrupted
/// ciphertext and tampering are indistinguishable here.
#[derive(Debug, Clone, Copy, PartialEq, Eq, Structural)]
pub struct AuthFailure;

/// A sealed blob: the ciphertext with its appended tag, and the nonce it
/// was sealed under.
#[derive(Debug, Clone)]
pub struct EncryptedData {
    pub data: Vec<u8>,
    pub nonce: Vec<u8>,
}

/// Relies on chacha20poly1305's encrypt: with a 32-byte key and a plaintext
/// short of the ChaCha20 counter limit it cannot fail; it appends the
/// 16-byte tag to the ciphertext, and the result is a function of key,
/// nonce and plaintext alone. That opening such a result under the same key
/// and nonce yields the plaintext back is the cipher's round-trip
/// guarantee.
#[verifier::external_body]
fn aead_seal(key: &Vec<u8>, nonce: &Vec<u8>, plain: &[u8]) -> (r: Vec<u8>)
    requires
        key@.len() == 32,
        nonce@.len() == 12,
        plain@.len() + 16 <= usize::MAX,
        plain@.len() < 64 * 0xffff_ffff,
    ensures
        r@ == seal_of(key@, nonce@, plain@),
        r@.len() == plain@.len() + 16,
        open_of(key@, nonce@, r@) == Some(plain@),
{
    let cipher = chacha20poly1305::ChaCha20Poly1305::new_from_slice(key.as_slice()).unwrap();
    let nonce = chacha20poly1305::Nonce::from_slice(nonce.as_slice());
    cipher.encrypt(nonce, plain).unwrap()
}

/// Relies on chacha20poly1305's decrypt: it returns the plaintext exactly
/// when the tag embedded in the ciphertext verifies under the key and
/// nonce, and an error otherwise; the outcome is a function of key, nonce
/// and ciphertext alone.
#[verifier::external_body]
fn aead_open(key: &Vec<u8>, nonce: &Vec<u8>, cipher_text: &Vec<u8>) -> (r: Result<
    Vec<u8>,
    AuthFailure,
>)
    requires
        key@.len() == 32,
        nonce@.len() == 12,
    ensures
        match r {
            Ok(p) => open_of(key@, nonce@, cipher_text@) == Some(p@),
            Err(_) => open_of(key@, nonce@, cipher_text@) is None,
        },
{
    let cipher = chacha20poly1305::ChaCha20Poly1305::new_from_slice(key.as_slice()).unwrap();
    let nonce = chacha20poly1305::Nonce::from_slice(nonce.as_slice());
    cipher.decrypt(nonce, cipher_text.as_slice()).map_err(|_| AuthFailure)
}

/// Seals `data` under `key` with a fresh random 12-byte nonce. The
/// ciphertext is 16 bytes longer than the plaintext; opening it under the
/// same key and nonce yields the plaintext back.
pub fn encrypt(key: &Key, data: &[u8]) -> (r: EncryptedData)
    requires
        key.wf(),
        data@.len() + 16 <= usize::MAX,
        data@.len() < 64 * 0xffff_ffff,
    ensures
        r.nonce@.len() == 12,
        r.data@.len() == data@.len() + 16,
        r.data@ == seal_of(key.spec_bytes(), r.nonce@, data@),
        open_of(key.spec_bytes(), r.nonce@, r.data@) == Some(data@),
{
    let nonce = random_bytes(12);
    let sealed = aead_seal(key.get_bytes(), &nonce, data);
    EncryptedData { data: sealed, nonce }
}

/// Opens a sealed blob under `key`. Succeeds with the plaintext exactly
/// when the tag verifies; fails with `AuthFailure` otherwise.
pub fn decrypt(key: &Key, data: EncryptedData) -> (r: Result<Vec<u8>, AuthFailure>)
    requires
        key.wf(),
        data.nonce@.len() == 12,
    ensures
        match r {
            Ok(p) => open_of(key.spec_bytes(), data.nonce@, data.data@) == Some(p@),
            Err(_) => open_of(key.spec_bytes(), data.nonce@, data.data@) is None,
        },
{
    aead_open(key.get_bytes(), &data.nonce, &data.data)
}

} // verus!
