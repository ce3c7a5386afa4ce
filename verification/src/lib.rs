//! Password-based file encryption containers.
//!
//! A container carries a ciphertext body between a fixed binary header
//! (magic number, format version, key-derivation salt and iteration count,
//! AEAD nonce, body length) and a checksum footer. The key is derived from
//! a password with PBKDF2 over SHA3-512; the body is sealed with
//! ChaCha20Poly1305.

pub mod bytes;
pub mod crypt;
pub mod file;
pub mod key;
pub mod pipeline;
mod rng;
pub mod ui;
