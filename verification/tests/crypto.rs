use ledger_crypto::{
    check_keypair_match, generate_keypair, CryptoError, Hash256, PrivateKey, PublicKey, Signature,
    TypedSignature,
};

#[test]
fn hash_is_deterministic() {
    assert_eq!(Hash256::hash(b"abc"), Hash256::hash(b"abc"));
    assert_eq!(Hash256::hash(b""), Hash256::hash(b""));
}

#[test]
fn hash_distinguishes_inputs() {
    assert_ne!(Hash256::hash(b"abc"), Hash256::hash(b"abd"));
    assert_ne!(Hash256::hash(b""), Hash256::hash(b"\0"));
}

#[test]
fn hash_agrees_with_blake3() {
    let expected: [u8; 32] = *blake3::hash(b"hello").as_bytes();
    assert_eq!(Hash256::hash(b"hello"), Hash256::from_array(expected));
    assert_eq!(Hash256::hash(b"hello").as_bytes(), &expected);
}

#[test]
fn hash_does_not_echo_its_input() {
    let input: [u8; 32] = [7u8; 32];
    let digest = Hash256::hash(&input);
    assert_ne!(digest.as_bytes(), &input);
}

#[test]
fn zero_is_all_zero_bytes() {
    assert_eq!(Hash256::zero().as_bytes(), &[0u8; 32]);
}

#[test]
fn from_array_keeps_the_bytes() {
    let bytes: [u8; 32] = [0xab; 32];
    assert_eq!(Hash256::from_array(bytes).as_bytes(), &bytes);
}

#[test]
fn aggregate_hashes_the_concatenation() {
    let a = Hash256::hash(b"left");
    let b = Hash256::hash(b"right");
    let mut concat = a.as_bytes().to_vec();
    concat.extend_from_slice(b.as_bytes());
    assert_eq!(a.aggregate(&b), Hash256::hash(&concat));
}

#[test]
fn aggregate_is_order_sensitive() {
    let a = Hash256::hash(b"left");
    let b = Hash256::hash(b"right");
    assert_ne!(a, b);
    assert_ne!(a.aggregate(&b), b.aggregate(&a));
}

#[test]
fn keypair_generation_is_deterministic() {
    let (pk1, sk1) = generate_keypair(b"some seed");
    let (pk2, sk2) = generate_keypair(b"some seed");
    assert_eq!(pk1, pk2);
    assert_eq!(sk1, sk2);
}

#[test]
fn different_seeds_give_different_keypairs() {
    let (pk1, sk1) = generate_keypair(b"seed one");
    let (pk2, sk2) = generate_keypair(b"seed two");
    assert_ne!(pk1, pk2);
    assert_ne!(sk1, sk2);
}

#[test]
fn generated_keys_are_not_the_seed_hash() {
    let (pk, sk) = generate_keypair(b"some seed");
    let seed_digest = Hash256::hash(b"some seed");
    assert_ne!(pk.as_bytes(), seed_digest.as_bytes());
    assert_ne!(sk.as_bytes(), seed_digest.as_bytes());
}

#[test]
fn generated_keypair_matches() {
    let (pk, sk) = generate_keypair(b"node identity");
    assert!(check_keypair_match(&pk, &sk).is_ok());
}

#[test]
fn mismatched_keypair_is_rejected() {
    let (pk1, _sk1) = generate_keypair(b"seed one");
    let (_pk2, sk2) = generate_keypair(b"seed two");
    let r = check_keypair_match(&pk1, &sk2);
    assert!(matches!(
        r,
        Err(CryptoError::VerificationFailed) | Err(CryptoError::InvalidFormat(_))
    ));
}

#[test]
fn sign_then_verify_succeeds() {
    let (pk, sk) = generate_keypair(b"round trip");
    let digest = Hash256::hash(b"a message");
    let signature = Signature::sign(digest, &pk, &sk).unwrap();
    assert!(signature.verify(digest, &pk).is_ok());
}

#[test]
fn signature_is_sixty_four_bytes() {
    let (pk, sk) = generate_keypair(b"length");
    let digest = Hash256::hash(b"a message");
    let signature = Signature::sign(digest, &pk, &sk).unwrap();
    assert_eq!(signature.as_bytes().len(), 64);
}

#[test]
fn sign_with_short_private_key_fails() {
    let (pk, _) = generate_keypair(b"short key");
    let digest = Hash256::hash(b"a message");
    let bad = PrivateKey { key: vec![0u8; 31] };
    let r = Signature::sign(digest, &pk, &bad);
    assert!(matches!(r, Err(CryptoError::InvalidFormat(_))));
}

#[test]
fn verify_with_short_public_key_fails() {
    let (pk, sk) = generate_keypair(b"short public");
    let digest = Hash256::hash(b"a message");
    let signature = Signature::sign(digest, &pk, &sk).unwrap();
    let bad = PublicKey::from_bytes(vec![1u8; 16]);
    let r = signature.verify(digest, &bad);
    assert!(matches!(r, Err(CryptoError::InvalidFormat(_))));
}

#[test]
fn tampered_hash_fails_verification() {
    let (pk, sk) = generate_keypair(b"tamper hash");
    let digest = Hash256::hash(b"a message");
    let signature = Signature::sign(digest, &pk, &sk).unwrap();
    let mut bytes = digest.hash;
    bytes[0] ^= 0x01;
    let tampered = Hash256::from_array(bytes);
    assert!(matches!(
        signature.verify(tampered, &pk),
        Err(CryptoError::VerificationFailed)
    ));
}

#[test]
fn tampered_signature_fails_verification() {
    let (pk, sk) = generate_keypair(b"tamper signature");
    let digest = Hash256::hash(b"a message");
    let signature = Signature::sign(digest, &pk, &sk).unwrap();
    let mut bytes = signature.as_bytes().to_vec();
    bytes[0] ^= 0x01;
    let tampered = Signature::from_bytes(bytes);
    assert!(matches!(
        tampered.verify(digest, &pk),
        Err(CryptoError::VerificationFailed) | Err(CryptoError::InvalidFormat(_))
    ));
}

#[test]
fn undecodable_signature_is_invalid_format() {
    let (pk, sk) = generate_keypair(b"bad scalar");
    let digest = Hash256::hash(b"a message");
    let signature = Signature::sign(digest, &pk, &sk).unwrap();
    let mut bytes = signature.as_bytes().to_vec();
    bytes[63] |= 0xe0;
    let tampered = Signature::from_bytes(bytes);
    assert!(matches!(
        tampered.verify(digest, &pk),
        Err(CryptoError::InvalidFormat(_))
    ));
}

#[test]
fn tampered_public_key_fails_verification() {
    let (pk, sk) = generate_keypair(b"tamper key");
    let digest = Hash256::hash(b"a message");
    let signature = Signature::sign(digest, &pk, &sk).unwrap();
    let mut bytes = pk.as_bytes().to_vec();
    bytes[0] ^= 0x01;
    let tampered = PublicKey::from_bytes(bytes);
    assert!(matches!(
        signature.verify(digest, &tampered),
        Err(CryptoError::VerificationFailed) | Err(CryptoError::InvalidFormat(_))
    ));
}

#[test]
fn typed_signature_round_trip() {
    let (pk, sk) = generate_keypair(b"typed");
    let payload: Vec<u8> = b"some payload".to_vec();
    let ts = TypedSignature::<Vec<u8>>::sign(&payload, &pk, &sk).unwrap();
    assert!(ts.verify(&payload, &pk).is_ok());
}

#[test]
fn typed_signature_rejects_other_value() {
    let (pk, sk) = generate_keypair(b"typed reject");
    let payload: Vec<u8> = b"some payload".to_vec();
    let other: Vec<u8> = b"other payload".to_vec();
    let ts = TypedSignature::<Vec<u8>>::sign(&payload, &pk, &sk).unwrap();
    assert!(ts.verify(&other, &pk).is_err());
}

#[test]
fn typed_signature_new_wraps_raw_signature() {
    let (pk, sk) = generate_keypair(b"rewrap");
    let payload: Vec<u8> = b"wire payload".to_vec();
    let ts = TypedSignature::<Vec<u8>>::sign(&payload, &pk, &sk).unwrap();
    let raw = Signature::from_bytes(ts.signature.as_bytes().to_vec());
    let rewrapped = TypedSignature::<Vec<u8>>::new(raw);
    assert_eq!(rewrapped.signature, ts.signature);
    assert!(rewrapped.verify(&payload, &pk).is_ok());
}

#[test]
fn seeded_identity_signs_and_tampering_breaks_it() {
    let (pk, sk) = generate_keypair(b"test-seed");
    let digest = Hash256::hash(b"hello");
    let signature = Signature::sign(digest, &pk, &sk).unwrap();
    assert!(signature.verify(digest, &pk).is_ok());
    let mut bytes = signature.as_bytes().to_vec();
    bytes[10] ^= 0xff;
    let tampered = Signature::from_bytes(bytes);
    assert!(tampered.verify(digest, &pk).is_err());
}

#[test]
fn sign_error_names_the_public_key() {
    let digest = Hash256::hash(b"a message");
    let bad_pk = PublicKey::from_bytes(vec![2u8; 16]);
    let (_, sk) = generate_keypair(b"context");
    match Signature::sign(digest, &bad_pk, &sk) {
        Err(CryptoError::InvalidFormat(context)) => assert_eq!(context, "public key: ?"),
        other => panic!("expected InvalidFormat, got {other:?}"),
    }
}

#[test]
fn sign_error_omits_the_private_key() {
    let digest = Hash256::hash(b"a message");
    let (pk, _) = generate_keypair(b"context");
    let bad_sk = PrivateKey { key: vec![3u8; 64] };
    match Signature::sign(digest, &pk, &bad_sk) {
        Err(CryptoError::InvalidFormat(context)) => {
            assert_eq!(context, "private key: [omitted]");
        }
        other => panic!("expected InvalidFormat, got {other:?}"),
    }
}

#[test]
fn verify_error_names_the_public_key() {
    let (pk, sk) = generate_keypair(b"context");
    let digest = Hash256::hash(b"a message");
    let signature = Signature::sign(digest, &pk, &sk).unwrap();
    let bad_pk = PublicKey::from_bytes(vec![2u8; 16]);
    match signature.verify(digest, &bad_pk) {
        Err(CryptoError::InvalidFormat(context)) => assert_eq!(context, "public_key: ?"),
        other => panic!("expected InvalidFormat, got {other:?}"),
    }
}

#[test]
fn hash_ordering_is_byte_lexicographic() {
    let small = Hash256::from_array([0u8; 32]);
    let mut bigger_bytes = [0u8; 32];
    bigger_bytes[0] = 1;
    let bigger = Hash256::from_array(bigger_bytes);
    assert!(small < bigger);
    assert!(small <= small);
}
