//! Random byte generation for salts and nonces.

use vstd::prelude::*;
use rand::Rng;
use rand::SeedableRng;

verus! {

/// Relies on rand_chacha's ChaCha20Rng, freshly seeded from system entropy,
/// to draw `n` random bytes. Only the length of the result is stated: the
/// bytes themselves depend on the entropy source and differ between calls.
#[verifier::external_body]
pub(crate) fn random_bytes(n: usize) -> (r: Vec<u8>)
    ensures
        r@.len() == n,
{
    let mut rng = rand_chacha::ChaCha20Rng::from_entropy();
    let mut r = Vec::with_capacity(n);
    for _ in 0..n {
        r.push(rng.gen::<u8>());
    }
    r
}

} // verus!
