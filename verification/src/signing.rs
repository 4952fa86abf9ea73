//! Signatures over hashes, the keypair self-test, and type-bound signatures.
use vstd::prelude::*;
use vstd::string::StringSliceAdditionalSpecFns;
use core::marker::PhantomData;
use crate::digest::blake3_of;
use crate::digest::Hash256;
use crate::keys::PrivateKey;
use crate::keys::PublicKey;
use crate::scheme::ed_sig_of;
use crate::scheme::ed_sign;
use crate::scheme::ed_verifies;
use crate::scheme::ed_verify;
use crate::scheme::pk_decode_ok;
use crate::scheme::pk_decodes;
use crate::scheme::pk_of_sk;
use crate::scheme::sig_decodes;
use crate::CryptoError;

verus! {

/// The fixed, well-known message whose signing and verification exercise a
/// keypair in the self-test.
pub open spec fn check_message() -> Seq<u8> {
    "Some Random Message".spec_bytes()
}

/// The keypair relation as this crate can observe it: both keys are well
/// formed, and a signature made with the private key over the self-test
/// digest verifies under the public key.
pub open spec fn keys_match(pk: Seq<u8>, sk: Seq<u8>) -> bool {
    let m = blake3_of(check_message());
    pk_decodes(pk) && sk.len() == 32 && ed_verifies(ed_sig_of(sk, pk, m), m, pk)
}

/// When verification of a signature over a message under a key succeeds:
/// both decode, and the scheme accepts the triple.
pub open spec fn verify_ok(sig: Seq<u8>, msg: Seq<u8>, pk: Seq<u8>) -> bool {
    sig_decodes(sig) && pk_decodes(pk) && ed_verifies(sig, msg, pk)
}

/// What holds of a signature that signing produced for a message under a
/// keypair: it is the scheme's deterministic signature, it decodes again,
/// and under the public key belonging to the private key it verifies.
pub open spec fn signed_by(sig: Seq<u8>, msg: Seq<u8>, pk: Seq<u8>, sk: Seq<u8>) -> bool {
    &&& sig == ed_sig_of(sk, pk, msg)
    &&& sig_decodes(sig)
    &&& (pk == pk_of_sk(sk) ==> ed_verifies(sig, msg, pk))
}

/// A cryptographic signature: an opaque byte string, valid only relative to
/// a specific (hash, public key) pair.
#[derive(Debug, PartialEq, Eq, PartialOrd, Ord, Clone, Hash)]
pub struct Signature {
    signature: Vec<u8>,
}

impl View for Signature {
    type V = Seq<u8>;

    closed spec fn view(&self) -> Seq<u8> {
        self.signature@
    }
}

impl Signature {
    /// Adopts signature bytes as they arrive off the wire, unchecked;
    /// whether they decode is settled at verification.
    pub fn from_bytes(signature: Vec<u8>) -> (r: Self)
        ensures
            r@ == signature@,
    {
        Signature { signature }
    }

    /// The signature's raw bytes.
    pub fn as_bytes(&self) -> (r: &[u8])
        ensures
            r@ == self@,
    {
        self.signature.as_slice()
    }

    /// Creates a new signature from the given data and keys. Fails fast,
    /// before producing any signature, when the two keys do not form a
    /// matching pair; decodes both keys; then signs the 32 hash bytes.
    pub fn sign(data: Hash256, public_key: &PublicKey, private_key: &PrivateKey) -> (r: Result<
        Signature,
        CryptoError,
    >)
        ensures
            r is Ok <==> keys_match(public_key@, private_key@),
            public_key@ == pk_of_sk(private_key@) && pk_decodes(public_key@) && private_key@.len()
                == 32 ==> r is Ok,
            r matches Ok(s) ==> signed_by(s@, data@, public_key@, private_key@),
            !pk_decodes(public_key@) ==> (r matches Err(CryptoError::InvalidFormat(m)) && m@
                == "public key: ?"@),
            pk_decodes(public_key@) && private_key@.len() != 32 ==> (r matches Err(
                CryptoError::InvalidFormat(m),
            ) && m@ == "private key: [omitted]"@),
            pk_decodes(public_key@) && private_key@.len() == 32 && !keys_match(
                public_key@,
                private_key@,
            ) ==> r matches Err(CryptoError::VerificationFailed),
    {
        match check_keypair_match(public_key, private_key) {
            Ok(()) => sign_raw(data.as_bytes(), public_key, private_key),
            Err(e) => Err(e),
        }
    }

    /// Verifies the signature against the given data and public key: the
    /// signature bytes and the key must decode, and the scheme must accept
    /// the triple; a cryptographic mismatch is reported without detail.
    pub fn verify(&self, data: Hash256, public_key: &PublicKey) -> (r: Result<(), CryptoError>)
        ensures
            r is Ok <==> verify_ok(self@, data@, public_key@),
            !sig_decodes(self@) ==> (r matches Err(CryptoError::InvalidFormat(m)) && m@
                == "signature: ?"@),
            sig_decodes(self@) && !pk_decodes(public_key@) ==> (r matches Err(
                CryptoError::InvalidFormat(m),
            ) && m@ == "public_key: ?"@),
            sig_decodes(self@) && pk_decodes(public_key@) && !ed_verifies(
                self@,
                data@,
                public_key@,
            ) ==> r matches Err(CryptoError::VerificationFailed),
    {
        if !(self.signature.len() == 64 && self.signature[63] & 0xe0 == 0) {
            return Err(CryptoError::InvalidFormat("signature: ?".to_owned()));
        }
        if !pk_decode_ok(public_key.as_bytes()) {
            return Err(CryptoError::InvalidFormat("public_key: ?".to_owned()));
        }
        if ed_verify(self.as_bytes(), data.as_bytes(), public_key.as_bytes()) {
            Ok(())
        } else {
            Err(CryptoError::VerificationFailed)
        }
    }
}

/// Decodes the keys and signs the message bytes, without the keypair
/// self-test; shared by signing proper and by the self-test itself.
fn sign_raw(msg: &[u8], public_key: &PublicKey, private_key: &PrivateKey) -> (r: Result<
    Signature,
    CryptoError,
>)
    ensures
        r is Ok <==> pk_decodes(public_key@) && private_key@.len() == 32,
        r matches Ok(s) ==> signed_by(s@, msg@, public_key@, private_key@),
        !pk_decodes(public_key@) ==> (r matches Err(CryptoError::InvalidFormat(m)) && m@
            == "public key: ?"@),
        pk_decodes(public_key@) && private_key@.len() != 32 ==> (r matches Err(
            CryptoError::InvalidFormat(m),
        ) && m@ == "private key: [omitted]"@),
{
    if !pk_decode_ok(public_key.as_bytes()) {
        return Err(CryptoError::InvalidFormat("public key: ?".to_owned()));
    }
    if private_key.key.len() != 32 {
        return Err(CryptoError::InvalidFormat("private key: [omitted]".to_owned()));
    }
    let sig = ed_sign(msg, public_key.as_bytes(), private_key.as_bytes());
    Ok(Signature { signature: sig })
}

/// Checks whether the given public and private keys match, by signing the
/// fixed self-test message with the private key and verifying the result
/// under the public key. Keys that correspond under the scheme's keypair
/// relation always pass.
pub fn check_keypair_match(public_key: &PublicKey, private_key: &PrivateKey) -> (r: Result<
    (),
    CryptoError,
>)
    ensures
        r is Ok <==> keys_match(public_key@, private_key@),
        public_key@ == pk_of_sk(private_key@) && pk_decodes(public_key@) && private_key@.len()
            == 32 ==> r is Ok,
        !pk_decodes(public_key@) ==> (r matches Err(CryptoError::InvalidFormat(m)) && m@
            == "public key: ?"@),
        pk_decodes(public_key@) && private_key@.len() != 32 ==> (r matches Err(
            CryptoError::InvalidFormat(m),
        ) && m@ == "private key: [omitted]"@),
        pk_decodes(public_key@) && private_key@.len() == 32 && !keys_match(
            public_key@,
            private_key@,
        ) ==> r matches Err(CryptoError::VerificationFailed),
{
    let msg = "Some Random Message".as_bytes();
    let digest = Hash256::hash(msg);
    match sign_raw(digest.as_bytes(), public_key, private_key) {
        Ok(signature) => signature.verify(digest, public_key),
        Err(e) => Err(e),
    }
}

/// Law: a signature that signing produced for a message under a matching,
/// well-formed keypair verifies for that message under the public key.
pub proof fn lemma_sign_then_verify(sig: Seq<u8>, msg: Seq<u8>, pk: Seq<u8>, sk: Seq<u8>)
    requires
        signed_by(sig, msg, pk, sk),
        pk == pk_of_sk(sk),
        pk_decodes(pk),
    ensures
        verify_ok(sig, msg, pk),
{
}

/// A value with a canonical, deterministic byte encoding: the same logical
/// value always encodes to the same bytes, across processes and versions.
/// These bytes are what a typed signature hashes and signs.
pub trait Canonical {
    /// The canonical encoding, as contracts speak of it.
    spec fn canon(&self) -> Seq<u8>;

    /// Produces the canonical encoding.
    fn canonical_bytes(&self) -> (r: Vec<u8>)
        ensures
            r@ == self.canon(),
    ;
}

/// A raw byte payload is its own canonical encoding.
impl Canonical for Vec<u8> {
    open spec fn canon(&self) -> Seq<u8> {
        self@
    }

    fn canonical_bytes(&self) -> (r: Vec<u8>) {
        let mut copy: Vec<u8> = Vec::new();
        let mut i: usize = 0;
        while i < self.len()
            invariant
                i <= self@.len(),
                copy@ == self@.take(i as int),
            decreases self@.len() - i,
        {
            copy.push(self[i]);
            i = i + 1;
        }
        proof {
            assert(copy@ =~= self@);
        }
        copy
    }
}

/// A signature explicitly marked, at the type level, with the type of the
/// signed value: it is created over the hash of the value's canonical
/// encoding, and the tag carries no bytes of its own. The tag exists purely
/// to keep a signature over one kind of payload from being accepted for
/// another at the call site.
#[derive(Debug, PartialEq, Eq, PartialOrd, Ord)]
#[verifier::reject_recursive_types(T)]
pub struct TypedSignature<T> {
    pub signature: Signature,
    pub _mark: PhantomData<T>,
}

impl<T: Canonical> TypedSignature<T> {
    /// Creates a new typed signature from the given value and keys: the
    /// value's canonical encoding is hashed, and that hash is signed.
    pub fn sign(data: &T, public_key: &PublicKey, private_key: &PrivateKey) -> (r: Result<
        Self,
        CryptoError,
    >)
        ensures
            r is Ok <==> keys_match(public_key@, private_key@),
            public_key@ == pk_of_sk(private_key@) && pk_decodes(public_key@) && private_key@.len()
                == 32 ==> r is Ok,
            r matches Ok(ts) ==> signed_by(
                ts.signature@,
                blake3_of(data.canon()),
                public_key@,
                private_key@,
            ),
            !pk_decodes(public_key@) ==> (r matches Err(CryptoError::InvalidFormat(m)) && m@
                == "public key: ?"@),
            pk_decodes(public_key@) && private_key@.len() != 32 ==> (r matches Err(
                CryptoError::InvalidFormat(m),
            ) && m@ == "private key: [omitted]"@),
            pk_decodes(public_key@) && private_key@.len() == 32 && !keys_match(
                public_key@,
                private_key@,
            ) ==> r matches Err(CryptoError::VerificationFailed),
    {
        let bytes = data.canonical_bytes();
        let digest = Hash256::hash(bytes.as_slice());
        match Signature::sign(digest, public_key, private_key) {
            Ok(signature) => Ok(TypedSignature { signature, _mark: PhantomData }),
            Err(e) => Err(e),
        }
    }

    /// Verifies the signature against the given value and public key, over
    /// the hash of the value's canonical encoding.
    pub fn verify(&self, data: &T, public_key: &PublicKey) -> (r: Result<(), CryptoError>)
        ensures
            r is Ok <==> verify_ok(self.signature@, blake3_of(data.canon()), public_key@),
            !sig_decodes(self.signature@) ==> (r matches Err(CryptoError::InvalidFormat(m)) && m@
                == "signature: ?"@),
            sig_decodes(self.signature@) && !pk_decodes(public_key@) ==> (r matches Err(
                CryptoError::InvalidFormat(m),
            ) && m@ == "public_key: ?"@),
            sig_decodes(self.signature@) && pk_decodes(public_key@) && !ed_verifies(
                self.signature@,
                blake3_of(data.canon()),
                public_key@,
            ) ==> r matches Err(CryptoError::VerificationFailed),
    {
        let bytes = data.canonical_bytes();
        let digest = Hash256::hash(bytes.as_slice());
        self.signature.verify(digest, public_key)
    }
}

impl<T> TypedSignature<T> {
    /// Wraps a pre-existing raw signature with the type tag, for
    /// deserialization paths; no cryptographic check happens here.
    pub fn new(signature: Signature) -> (r: Self)
        ensures
            r.signature == signature,
    {
        TypedSignature { signature, _mark: PhantomData }
    }
}

} // verus!
