use ledger_core::crypto::{PrivateKey, PublicKey, Signature};
use ledger_core::errors::KeyDecodingError;

fn hex_to_bytes(s: &str) -> Vec<u8> {
    let chars: Vec<u8> = s.as_bytes().to_vec();
    let mut out: Vec<u8> = Vec::new();
    let mut i = 0;
    while i < chars.len() {
        let hi = (chars[i] as char).to_digit(16).unwrap() as u8;
        let lo = (chars[i + 1] as char).to_digit(16).unwrap() as u8;
        out.push(hi * 16 + lo);
        i += 2;
    }
    out
}

fn scalar_key(last_byte: u8) -> PrivateKey {
    let mut bytes = vec![0u8; 31];
    bytes.push(last_byte);
    PrivateKey::from_bytes(&bytes).unwrap()
}

fn digest_of(data: &[u8]) -> ledger_core::hashing::Hash {
    ledger_core::hashing::Hash::hash(&data.to_vec())
}

#[test]
fn derive_public_key_is_deterministic() {
    let key = PrivateKey::new_key();
    let first = key.public_key();
    let second = key.public_key();
    assert!(first == second);
    assert_eq!(first.to_bytes(), second.to_bytes());
}

#[test]
fn derive_public_key_matches_generator() {
    // The scalar 1 maps to the generator point of secp256k1.
    let key = scalar_key(1);
    let expected = hex_to_bytes("0279be667ef9dcbbac55a06295ce870b07029bfcdb2dce28d959f2815b16f81798");
    assert_eq!(key.public_key().to_bytes(), expected);
}

#[test]
fn sign_then_verify_accepts() {
    let key = PrivateKey::new_key();
    let digest = digest_of(b"transaction commitment");
    let sig = key.sign(&digest);
    assert!(sig.verify(&digest, &key.public_key()));
}

#[test]
fn sign_output_agrees_with_sign() {
    let key = scalar_key(7);
    let digest = digest_of(b"output");
    let direct = key.sign(&digest);
    let through = Signature::sign_output(&digest, &key);
    assert_eq!(direct.to_bytes(), through.to_bytes());
}

#[test]
fn verify_rejects_other_key() {
    let key1 = scalar_key(1);
    let key2 = scalar_key(2);
    let digest = digest_of(b"commitment");
    let sig = key1.sign(&digest);
    assert!(sig.verify(&digest, &key1.public_key()));
    assert!(!sig.verify(&digest, &key2.public_key()));
}

#[test]
fn verify_rejects_other_digest() {
    let key = scalar_key(3);
    let digest1 = digest_of(b"abc");
    let digest2 = digest_of(b"abd");
    let sig = key.sign(&digest1);
    assert!(sig.verify(&digest1, &key.public_key()));
    assert!(!sig.verify(&digest2, &key.public_key()));
}

#[test]
fn signing_is_deterministic() {
    let key = PrivateKey::new_key();
    let digest = digest_of(b"same digest twice");
    let first = key.sign(&digest);
    let second = key.sign(&digest);
    assert_eq!(first.to_bytes(), second.to_bytes());
}

#[test]
fn fresh_keys_differ() {
    let key1 = PrivateKey::new_key();
    let key2 = PrivateKey::new_key();
    assert_ne!(key1.to_bytes(), key2.to_bytes());
}

#[test]
fn private_key_round_trip() {
    let key = PrivateKey::new_key();
    let encoded = key.to_bytes();
    let decoded = PrivateKey::from_bytes(&encoded).unwrap();
    assert_eq!(decoded.to_bytes(), encoded);
}

#[test]
fn public_key_round_trip() {
    let pubkey = PrivateKey::new_key().public_key();
    let encoded = pubkey.to_bytes();
    let decoded = PublicKey::from_bytes(&encoded).unwrap();
    assert!(decoded == pubkey);
    assert_eq!(decoded.to_bytes(), encoded);
}

#[test]
fn signature_round_trip() {
    let key = PrivateKey::new_key();
    let digest = digest_of(b"round trip");
    let sig = key.sign(&digest);
    let encoded = sig.to_bytes();
    let decoded = Signature::from_bytes(&encoded).unwrap();
    assert_eq!(decoded.to_bytes(), encoded);
    assert!(decoded.verify(&digest, &key.public_key()));
}

#[test]
fn private_key_decode_rejects_wrong_length() {
    let short = PrivateKey::from_bytes(&vec![1u8; 31]);
    assert!(short.is_err());
    assert_eq!(short.unwrap_err(), KeyDecodingError);
    let long = PrivateKey::from_bytes(&vec![1u8; 33]);
    assert!(long.is_err());
}

#[test]
fn private_key_decode_rejects_zero_scalar() {
    let r = PrivateKey::from_bytes(&vec![0u8; 32]);
    assert!(r.is_err());
    assert_eq!(r.unwrap_err(), KeyDecodingError);
}

#[test]
fn private_key_decode_rejects_scalar_above_order() {
    let r = PrivateKey::from_bytes(&vec![0xffu8; 32]);
    assert!(r.is_err());
    assert_eq!(r.unwrap_err(), KeyDecodingError);
}

#[test]
fn public_key_decode_rejects_wrong_length() {
    let uncompressed_len = PublicKey::from_bytes(&vec![4u8; 65]);
    assert!(uncompressed_len.is_err());
    let short = PublicKey::from_bytes(&vec![2u8; 32]);
    assert!(short.is_err());
}

#[test]
fn public_key_decode_rejects_bad_prefix() {
    // The uncompressed tag is only valid at 65 bytes, never at 33.
    let mut bytes = PrivateKey::new_key().public_key().to_bytes();
    bytes[0] = 0x04;
    let r = PublicKey::from_bytes(&bytes);
    assert!(r.is_err());
    assert_eq!(r.unwrap_err(), KeyDecodingError);
}

#[test]
fn signature_decode_rejects_wrong_length() {
    let r = Signature::from_bytes(&vec![1u8; 63]);
    assert!(r.is_err());
    assert_eq!(r.unwrap_err(), KeyDecodingError);
}

#[test]
fn signature_decode_rejects_zero_scalars() {
    let r = Signature::from_bytes(&vec![0u8; 64]);
    assert!(r.is_err());
    assert_eq!(r.unwrap_err(), KeyDecodingError);
}
