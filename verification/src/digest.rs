//! The 32-byte content hash and its combination rule.
use vstd::prelude::*;

verus! {

/// The 32-byte digest that `blake3::hash` computes for the given bytes.
/// The algorithm is deterministic: the digest depends on the input alone.
pub uninterp spec fn blake3_of(data: Seq<u8>) -> Seq<u8>;

/// The all-zero digest, the well-known placeholder value.
pub open spec fn zero_digest() -> Seq<u8> {
    Seq::new(32, |i: int| 0u8)
}

/// Relies on `blake3::hash`: a deterministic 32-byte digest of the input,
/// a function of the input bytes alone.
#[verifier::external_body]
fn blake3_hash(data: &[u8]) -> (r: [u8; 32])
    ensures
        r@ == blake3_of(data@),
{
    *blake3::hash(data).as_bytes()
}

/// A cryptographic hash: 32 raw bytes, immutable once constructed, with
/// structural equality and byte-lexicographic ordering.
#[derive(Debug, PartialEq, Eq, PartialOrd, Ord, Clone, Copy, Hash)]
pub struct Hash256 {
    pub hash: [u8; 32],
}

impl View for Hash256 {
    type V = Seq<u8>;

    open spec fn view(&self) -> Seq<u8> {
        self.hash@
    }
}

impl Hash256 {
    /// The all-zero sentinel value, e.g. "no parent" in a chain.
    pub fn zero() -> (r: Self)
        ensures
            r@ == zero_digest(),
    {
        let r = Hash256 { hash: [0u8; 32] };
        proof {
            assert(r@ =~= zero_digest());
        }
        r
    }

    /// Hashes the given data.
    pub fn hash(data: &[u8]) -> (r: Self)
        ensures
            r@ == blake3_of(data@),
    {
        Hash256 { hash: blake3_hash(data) }
    }

    /// Adopts 32 bytes that already are a digest, unchanged.
    pub fn from_array(data: [u8; 32]) -> (r: Self)
        ensures
            r@ == data@,
    {
        Hash256 { hash: data }
    }

    /// Combines two digests by hashing their concatenation, in the given
    /// order; the order matters and callers must preserve it.
    pub fn aggregate(&self, other: &Self) -> (r: Self)
        ensures
            r@ == blake3_of(self@ + other@),
    {
        let mut concat: Vec<u8> = Vec::new();
        let mut i: usize = 0;
        while i < 32
            invariant
                i <= 32,
                concat@ == self@.take(i as int),
            decreases 32 - i,
        {
            concat.push(self.hash[i]);
            i = i + 1;
        }
        let mut j: usize = 0;
        while j < 32
            invariant
                j <= 32,
                concat@ == self@ + other@.take(j as int),
            decreases 32 - j,
        {
            concat.push(other.hash[j]);
            j = j + 1;
        }
        proof {
            assert(concat@ =~= self@ + other@);
        }
        Hash256::hash(concat.as_slice())
    }

    /// The digest's raw bytes.
    pub fn as_bytes(&self) -> (r: &[u8])
        ensures
            r@ == self@,
    {
        self.hash.as_slice()
    }
}

/// Law: hashing is deterministic — one input has one digest.
pub proof fn lemma_hash_deterministic(x: Seq<u8>, h1: Seq<u8>, h2: Seq<u8>)
    requires
        h1 == blake3_of(x),
        h2 == blake3_of(x),
    ensures
        h1 == h2,
{
}

} // verus!
