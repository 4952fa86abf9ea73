//! Key types and deterministic keypair derivation.
use vstd::prelude::*;
use crate::digest::blake3_of;
use crate::digest::Hash256;
use crate::scheme::ed_keypair_from_seed;
use crate::scheme::pk_decodes;
use crate::scheme::pk_of_sk;
use crate::scheme::sk_of_seed;

verus! {

/// A public key: an immutable wrapper around the scheme's 32 key bytes.
/// No validation happens at construction; whether the bytes decode to a
/// curve point is checked at first use.
#[derive(Debug, PartialEq, Eq, PartialOrd, Ord, Clone, Hash)]
pub struct PublicKey {
    key: Vec<u8>,
}

impl View for PublicKey {
    type V = Seq<u8>;

    closed spec fn view(&self) -> Seq<u8> {
        self.key@
    }
}

impl PublicKey {
    /// Adopts key bytes as they arrive off the wire, unchecked.
    pub fn from_bytes(key: Vec<u8>) -> (r: Self)
        ensures
            r@ == key@,
    {
        PublicKey { key }
    }

    /// The key's raw bytes.
    pub fn as_bytes(&self) -> (r: &[u8])
        ensures
            r@ == self@,
    {
        self.key.as_slice()
    }
}

/// A private key: an immutable, caller-owned secret. Its bytes must never
/// be copied into logs or error messages.
#[derive(Debug, PartialEq, Eq, PartialOrd, Ord, Clone, Hash)]
pub struct PrivateKey {
    pub key: Vec<u8>,
}

impl View for PrivateKey {
    type V = Seq<u8>;

    open spec fn view(&self) -> Seq<u8> {
        self.key@
    }
}

impl PrivateKey {
    /// The key's raw bytes.
    pub fn as_bytes(&self) -> (r: &[u8])
        ensures
            r@ == self@,
    {
        self.key.as_slice()
    }
}

/// The keypair derived from a seed: the seed is hashed to 32 bytes, those
/// bytes determine the secret key, and the public key is derived from the
/// secret key.
pub open spec fn keypair_of_seed(seed: Seq<u8>) -> (Seq<u8>, Seq<u8>) {
    let sk = sk_of_seed(blake3_of(seed));
    (pk_of_sk(sk), sk)
}

/// Generates a keypair from the seed, deterministically: the same seed
/// always yields the same keypair, and the two keys correspond under the
/// scheme's keypair relation.
pub fn generate_keypair(seed: &[u8]) -> (r: (PublicKey, PrivateKey))
    ensures
        r.0@ == keypair_of_seed(seed@).0,
        r.1@ == keypair_of_seed(seed@).1,
        r.0@ == pk_of_sk(r.1@),
        r.1@.len() == 32,
        pk_decodes(r.0@),
{
    let digest = Hash256::hash(seed);
    let (pk, sk) = ed_keypair_from_seed(&digest.hash);
    (PublicKey { key: pk }, PrivateKey { key: sk })
}

/// Law: keypair derivation is deterministic — one seed has one keypair.
pub proof fn lemma_generate_keypair_deterministic(
    seed: Seq<u8>,
    k1: (Seq<u8>, Seq<u8>),
    k2: (Seq<u8>, Seq<u8>),
)
    requires
        k1 == keypair_of_seed(seed),
        k2 == keypair_of_seed(seed),
    ensures
        k1 == k2,
{
}

} // verus!
