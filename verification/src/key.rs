//! Key derivation: a password and a per-file salt and iteration count give
//! a 32-byte symmetric key, deterministically.

use vstd::prelude::*;

use crate::bytes::clone_bytes;
use crate::file::FcxFile;
use crate::rng::random_bytes;

verus! {

/// What PBKDF2 over SHA3-512 derives from a password, a salt and an
/// iteration count: a function of those three inputs alone.
pub uninterp spec fn kdf_of(password: Seq<u8>, salt: Seq<u8>, rounds: u32) -> Seq<u8>;

/// Relies on pbkdf2's pbkdf2_hmac with SHA3-512: it fills the 32-byte
/// buffer with key material that depends only on the password, the salt
/// and the iteration count.
#[verifier::external_body]
fn derive_bytes(password: &[u8], salt: &Vec<u8>, rounds: u32) -> (r: Vec<u8>)
    ensures
        r@ == kdf_of(password@, salt@, rounds),
        r@.len() == 32,
{
    let mut bytes = [0u8; 32];
    pbkdf2::pbkdf2_hmac::<sha3::Sha3_512>(password, salt.as_slice(), rounds, &mut bytes);
    bytes.to_vec()
}

/// A derived symmetric key, together with the salt and iteration count it
/// was derived with. Only salt and rounds are ever persisted; the key bytes
/// and the password are not.
#[derive(Debug)]
pub struct Key {
    pub bytes: Vec<u8>,
    pub rounds: u32,
    pub salt: Vec<u8>,
}

impl Key {
    /// The 32 derived key bytes.
    pub open spec fn spec_bytes(&self) -> Seq<u8> {
        self.bytes@
    }

    /// A key is well formed when it holds 32 key bytes and an 8-byte salt.
    pub open spec fn wf(&self) -> bool {
        self.spec_bytes().len() == 32 && self.salt@.len() == 8
    }

    /// Derives a key from `password` with a fresh random 8-byte salt and
    /// the caller's iteration count.
    pub fn new(password: &[u8], rounds: u32) -> (r: Key)
        ensures
            r.wf(),
            r.rounds == rounds,
            r.spec_bytes() == kdf_of(password@, r.salt@, rounds),
    {
        let salt = random_bytes(8);
        let bytes = derive_bytes(password, &salt, rounds);
        Key { bytes, rounds, salt }
    }

    /// The derived key bytes.
    pub fn get_bytes(&self) -> (r: &Vec<u8>)
        ensures
            r@ == self.spec_bytes(),
    {
        &self.bytes
    }

    /// Re-derives the key for a container from `password` and the salt and
    /// iteration count the container stores.
    pub fn from_file(file: &FcxFile, password: &[u8]) -> (r: Key)
        requires
            file@.salt.len() == 8,
        ensures
            r.wf(),
            r.rounds == file@.rounds,
            r.salt@ == file@.salt,
            r.spec_bytes() == kdf_of(password@, file@.salt, file@.rounds),
    {
        let salt = clone_bytes(&file.salt);
        let bytes = derive_bytes(password, &salt, file.rounds);
        Key { bytes, rounds: file.rounds, salt }
    }
}

/// The key-derivation function is deterministic: equal passwords, salts and
/// iteration counts derive equal key bytes.
pub proof fn lemma_kdf_deterministic(
    pw1: Seq<u8>,
    salt1: Seq<u8>,
    rounds1: u32,
    pw2: Seq<u8>,
    salt2: Seq<u8>,
    rounds2: u32,
)
    requires
        pw1 == pw2,
        salt1 == salt2,
        rounds1 == rounds2,
    ensures
        kdf_of(pw1, salt1, rounds1) == kdf_of(pw2, salt2, rounds2),
{
}

} // verus!
