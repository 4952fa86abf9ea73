//! The trusted edge to the Ed25519 implementation in `ed25519-dalek` and to
//! the seeded generator in `rand`. Everything the rest of the crate knows of
//! the scheme is stated here, over names for the algorithm's results.
use vstd::prelude::*;
use ed25519::signature::Signer;
use ed25519::signature::Verifier;
use rand::SeedableRng;

verus! {

/// Whether 32 bytes decompress to a curve point, the data-dependent half of
/// what `ed25519_dalek::PublicKey::from_bytes` checks.
pub uninterp spec fn pk_point_valid(pk: Seq<u8>) -> bool;

/// `ed25519_dalek::PublicKey::from_bytes` accepts exactly 32 bytes that
/// decompress to a curve point.
pub open spec fn pk_decodes(pk: Seq<u8>) -> bool {
    pk.len() == 32 && pk_point_valid(pk)
}

/// `ed25519_dalek::Signature::from_bytes` accepts exactly 64 bytes whose
/// scalar half is partially reduced: the top three bits of the last byte are
/// clear.
pub open spec fn sig_decodes(sig: Seq<u8>) -> bool {
    sig.len() == 64 && sig[63] & 0xe0 == 0
}

/// The signature that `ed25519_dalek::Keypair::sign` computes; the scheme
/// (RFC 8032) is deterministic, so the result is a function of the secret
/// key, the public key and the message alone.
pub uninterp spec fn ed_sig_of(sk: Seq<u8>, pk: Seq<u8>, msg: Seq<u8>) -> Seq<u8>;

/// Whether `ed25519_dalek::PublicKey::verify` accepts the signature for the
/// message under the key; the outcome depends on the three byte strings
/// alone.
pub uninterp spec fn ed_verifies(sig: Seq<u8>, msg: Seq<u8>, pk: Seq<u8>) -> bool;

/// The public key that `ed25519_dalek::PublicKey::from` derives from a
/// 32-byte secret key.
pub uninterp spec fn pk_of_sk(sk: Seq<u8>) -> Seq<u8>;

/// The 32 bytes that `ed25519_dalek::SecretKey::generate` draws from a
/// `rand::rngs::StdRng` seeded with the given 32 bytes; the generator is
/// fully determined by its seed.
pub uninterp spec fn sk_of_seed(seed: Seq<u8>) -> Seq<u8>;

/// Relies on `ed25519_dalek::PublicKey::from_bytes`: it succeeds exactly on
/// 32 bytes that decompress to a curve point.
#[verifier::external_body]
pub(crate) fn pk_decode_ok(pk: &[u8]) -> (r: bool)
    ensures
        r == (pk@.len() == 32 && pk_point_valid(pk@)),
        r == pk_decodes(pk@),
{
    ed25519_dalek::PublicKey::from_bytes(pk).is_ok()
}

/// Relies on `ed25519_dalek`: `PublicKey::from_bytes` and
/// `SecretKey::from_bytes` cannot fail on the admitted inputs, and
/// `Keypair::sign` computes the RFC 8032 signature, a deterministic function
/// of the two keys and the message. Its 64-byte result carries a reduced
/// scalar, so its top three bits are clear; and when the public key is the
/// one derived from the secret key, the result verifies for the message
/// under that key.
#[verifier::external_body]
pub(crate) fn ed_sign(msg: &[u8], pk: &[u8], sk: &[u8]) -> (r: Vec<u8>)
    requires
        pk_decodes(pk@),
        sk@.len() == 32,
    ensures
        r@ == ed_sig_of(sk@, pk@, msg@),
        sig_decodes(r@),
        pk@ == pk_of_sk(sk@) ==> ed_verifies(r@, msg@, pk@),
{
    let public = ed25519_dalek::PublicKey::from_bytes(pk).unwrap();
    let secret = ed25519_dalek::SecretKey::from_bytes(sk).unwrap();
    let keypair = ed25519_dalek::Keypair { secret, public };
    keypair.sign(msg).to_bytes().to_vec()
}

/// Relies on `ed25519_dalek`: `Signature::from_bytes` and
/// `PublicKey::from_bytes` cannot fail on the admitted inputs, and
/// `PublicKey::verify` decides, from the signature, message and key bytes
/// alone, whether the signature is valid.
#[verifier::external_body]
pub(crate) fn ed_verify(sig: &[u8], msg: &[u8], pk: &[u8]) -> (r: bool)
    requires
        sig_decodes(sig@),
        pk_decodes(pk@),
    ensures
        r == ed_verifies(sig@, msg@, pk@),
{
    let signature = ed25519_dalek::Signature::from_bytes(sig).unwrap();
    let public = ed25519_dalek::PublicKey::from_bytes(pk).unwrap();
    public.verify(msg, &signature).is_ok()
}

/// Relies on `rand::rngs::StdRng::from_seed`, which yields a generator fully
/// determined by the 32-byte seed, and on `ed25519_dalek::Keypair::generate`,
/// which draws the 32-byte secret key from that generator and pairs it with
/// the public key `PublicKey::from` derives from it. That public key is the
/// compressed form of an actual curve point, so it decodes again.
#[verifier::external_body]
pub(crate) fn ed_keypair_from_seed(seed: &[u8; 32]) -> (r: (Vec<u8>, Vec<u8>))
    ensures
        r.1@ == sk_of_seed(seed@),
        r.0@ == pk_of_sk(r.1@),
        r.1@.len() == 32,
        pk_decodes(r.0@),
{
    let mut rng = rand::rngs::StdRng::from_seed(*seed);
    let keypair = ed25519_dalek::Keypair::generate(&mut rng);
    (
        keypair.public.to_bytes().to_vec(),
        keypair.secret.to_bytes().to_vec(),
    )
}

} // verus!
