//! Cryptographic primitives for a distributed ledger: content hashing,
//! signatures over hashes, type-bound signatures, and deterministic keypair
//! derivation from a seed.
//!
//! The hash and signature algorithms themselves come from the `blake3` and
//! `ed25519-dalek` crates; this crate states their behaviour abstractly and
//! proves everything it builds on top of them.
use vstd::prelude::*;

pub mod digest;
pub mod keys;
pub mod scheme;
pub mod signing;

pub use digest::Hash256;
pub use keys::{generate_keypair, PrivateKey, PublicKey};
pub use signing::{check_keypair_match, Canonical, Signature, TypedSignature};

verus! {

/// The error vocabulary of this crate: malformed byte-level input, with a
/// context string naming the field that failed (never the secret payload
/// itself), or a cryptographic mismatch, reported without further detail.
#[derive(Debug, Clone)]
pub enum CryptoError {
    /// The data format is not valid.
    InvalidFormat(String),
    VerificationFailed,
}

} // verus!
