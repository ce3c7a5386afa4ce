//! Orchestration: one call to encrypt a plaintext into a container, one to
//! decrypt a container back. Each call owns its buffers and keeps no state.

use vstd::prelude::*;

use crate::bytes::clone_bytes;
use crate::crypt::{decrypt, encrypt, open_of, seal_of, AuthFailure, EncryptedData};
use crate::file::{
    checksum_matches, lemma_container_round_trip, lemma_parse_serial, parse_spec, serial_of,
    wf_view, FcxFile, FcxView, FormatError, VERSION,
};
use crate::key::{kdf_of, Key};

verus! {

/// What decrypting a container with a password yields: the body opened
/// under the key that the stored salt and iteration count derive from that
/// password.
pub open spec fn decrypt_spec(v: FcxView, password: Seq<u8>) -> Option<Seq<u8>> {
    open_of(kdf_of(password, v.salt, v.rounds), v.nonce, v.content)
}

/// The container holds an encryption of `plain` under `password`: its body
/// was sealed under the derived key and the stored nonce, and opens back to
/// `plain`.
pub open spec fn encrypted_with(v: FcxView, password: Seq<u8>, plain: Seq<u8>) -> bool {
    &&& v.content == seal_of(kdf_of(password, v.salt, v.rounds), v.nonce, plain)
    &&& decrypt_spec(v, password) == Some(plain)
}

/// Derives a key from `password` with a fresh salt and the caller's
/// iteration count, seals `plaintext` under it with a fresh nonce, and
/// assembles the container: salt, rounds and nonce in the header, the
/// ciphertext as the body, its checksum in the footer.
pub fn encrypt_to_container(password: &[u8], rounds: u32, plaintext: &[u8]) -> (r: FcxFile)
    requires
        plaintext@.len() + 16 <= usize::MAX,
        plaintext@.len() < 64 * 0xffff_ffff,
    ensures
        r.wf(),
        r.integrity_ok(),
        r@.version == VERSION,
        r@.rounds == rounds,
        r@.length == plaintext@.len() + 16,
        encrypted_with(r@, password@, plaintext@),
        parse_spec(serial_of(r@)) == Ok::<FcxView, FormatError>(r@),
{
    let key = Key::new(password, rounds);
    let enc = encrypt(&key, plaintext);
    let mut f = FcxFile::new();
    f.set_content(enc.data);
    f.nonce = enc.nonce;
    f.rounds = key.rounds;
    f.salt = clone_bytes(&key.salt);
    proof {
        lemma_parse_serial(f@);
    }
    f
}

/// Re-derives the key from `password` and the salt and iteration count the
/// container stores, and opens the body. Succeeds with the plaintext
/// exactly when the tag verifies; fails with `AuthFailure` otherwise.
pub fn decrypt_from_container(file: &FcxFile, password: &[u8]) -> (r: Result<Vec<u8>, AuthFailure>)
    requires
        file@.salt.len() == 8,
        file@.nonce.len() == 12,
    ensures
        match r {
            Ok(p) => decrypt_spec(file@, password@) == Some(p@),
            Err(_) => decrypt_spec(file@, password@) is None,
        },
{
    let key = Key::from_file(file, password);
    let data = EncryptedData { data: file.get_content(), nonce: clone_bytes(&file.nonce) };
    decrypt(&key, data)
}

/// Round trip: a container that holds an encryption of a plaintext under a
/// password decrypts under that password to exactly that plaintext.
pub proof fn lemma_round_trip(v: FcxView, password: Seq<u8>, plain: Seq<u8>)
    requires
        encrypted_with(v, password, plain),
    ensures
        decrypt_spec(v, password) == Some(plain),
{
}

/// End to end: the bytes of a well-formed container that holds an
/// encryption of `plain` under `password` parse back to the same container,
/// and that container still decrypts to `plain`.
pub proof fn lemma_round_trip_through_bytes(v: FcxView, password: Seq<u8>, plain: Seq<u8>)
    requires
        wf_view(v),
        checksum_matches(v),
        encrypted_with(v, password, plain),
    ensures
        parse_spec(serial_of(v)) == Ok::<FcxView, FormatError>(v),
        decrypt_spec(v, password) == Some(plain),
{
    lemma_container_round_trip(v);
}

} // verus!
