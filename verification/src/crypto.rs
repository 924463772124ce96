use vstd::prelude::*;

use crate::bytes_util::{bytes_eq, copy_bytes};
use crate::errors::KeyDecodingError;

verus! {

/// Whether 32 bytes are the big-endian encoding of a nonzero scalar
/// below the secp256k1 curve order, i.e. a usable secret key.
pub uninterp spec fn is_valid_scalar(bytes: Seq<u8>) -> bool;

/// Whether 33 bytes are a SEC1 encoding of a curve point other than
/// the identity — the compressed form, or sec1's non-standard
/// compact form of the same width — i.e. a usable public key.
pub uninterp spec fn is_valid_point(bytes: Seq<u8>) -> bool;

/// Whether 64 bytes are the fixed-width (r, s) encoding of a
/// signature with both scalars in range, i.e. parseable at all.
pub uninterp spec fn is_valid_sig(bytes: Seq<u8>) -> bool;

/// The compressed encoding of the public key derived from a secret
/// scalar; derivation is pure, so it depends on the scalar alone.
pub uninterp spec fn pubkey_of(key: Seq<u8>) -> Seq<u8>;

/// The signature that the given key produces over the given message.
/// The nonce is derived deterministically (RFC 6979), so the result
/// depends on the key and the message alone.
pub uninterp spec fn sig_of(key: Seq<u8>, msg: Seq<u8>) -> Seq<u8>;

/// Whether the given signature is accepted for the given message
/// under the given public key: a pure function of the three values.
pub uninterp spec fn verify_ok(pubkey: Seq<u8>, msg: Seq<u8>, sig: Seq<u8>) -> bool;

/// What decoding a raw private-key encoding yields: the bytes
/// themselves when they hold a valid scalar, nothing otherwise.
pub open spec fn decoded_private_key(bytes: Seq<u8>) -> Option<Seq<u8>> {
    if bytes.len() == 32 && is_valid_scalar(bytes) {
        Some(bytes)
    } else {
        None
    }
}

/// What decoding a compressed public-key encoding yields.
pub open spec fn decoded_public_key(bytes: Seq<u8>) -> Option<Seq<u8>> {
    if bytes.len() == 33 && is_valid_point(bytes) {
        Some(bytes)
    } else {
        None
    }
}

/// What decoding a fixed-width signature encoding yields.
pub open spec fn decoded_signature(bytes: Seq<u8>) -> Option<Seq<u8>> {
    if bytes.len() == 64 && is_valid_sig(bytes) {
        Some(bytes)
    } else {
        None
    }
}

/// Relies on k256's ecdsa SigningKey::random: a freshly drawn key
/// serializes to 32 bytes that decode back to a signing key.
#[verifier::external_body]
fn sk_generate() -> (r: Vec<u8>)
    ensures
        r@.len() == 32,
        is_valid_scalar(r@),
{
    let key = k256::ecdsa::SigningKey::random(&mut rand_core::OsRng);
    key.to_bytes().to_vec()
}

/// Relies on k256's ecdsa SigningKey::from_slice: given 32 bytes, it
/// accepts exactly the big-endian encodings of a nonzero scalar
/// below the curve order.
#[verifier::external_body]
fn sk_check(bytes: &Vec<u8>) -> (r: bool)
    requires
        bytes@.len() == 32,
    ensures
        r == is_valid_scalar(bytes@),
{
    k256::ecdsa::SigningKey::from_slice(bytes.as_slice()).is_ok()
}

/// Relies on k256's ecdsa SigningKey::verifying_key and SEC1 point
/// compression: the verifying key of a signing key, serialized as
/// its 33-byte compressed encoding, is a pure function of the key
/// bytes, and is itself a decodable public key.
#[verifier::external_body]
fn sk_derive_public(bytes: &Vec<u8>) -> (r: Vec<u8>)
    requires
        bytes@.len() == 32,
        is_valid_scalar(bytes@),
    ensures
        r@ == pubkey_of(bytes@),
        r@.len() == 33,
        is_valid_point(r@),
{
    let key = k256::ecdsa::SigningKey::from_slice(bytes.as_slice()).unwrap();
    key.verifying_key().to_encoded_point(true).as_bytes().to_vec()
}

/// Relies on k256's ecdsa Signer::sign: the nonce comes from
/// RFC 6979, so the 64 fixed-width signature bytes depend on the key
/// and the message alone, and the signature is accepted by
/// Verifier::verify under the key's own verifying key.
#[verifier::external_body]
fn sk_sign(bytes: &Vec<u8>, msg: &Vec<u8>) -> (r: Vec<u8>)
    requires
        bytes@.len() == 32,
        is_valid_scalar(bytes@),
    ensures
        r@ == sig_of(bytes@, msg@),
        r@.len() == 64,
        is_valid_sig(r@),
        verify_ok(pubkey_of(bytes@), msg@, r@),
{
    let key = k256::ecdsa::SigningKey::from_slice(bytes.as_slice()).unwrap();
    let sig: k256::ecdsa::Signature = ecdsa::signature::Signer::sign(&key, msg.as_slice());
    sig.to_bytes().to_vec()
}

/// Relies on k256's ecdsa VerifyingKey::from_sec1_bytes: given 33
/// bytes, it accepts exactly the SEC1 encodings of a curve point
/// other than the identity — the compressed form, and sec1's
/// non-standard compact form of the same width.
#[verifier::external_body]
fn pk_check(bytes: &Vec<u8>) -> (r: bool)
    requires
        bytes@.len() == 33,
    ensures
        r == is_valid_point(bytes@),
{
    k256::ecdsa::VerifyingKey::from_sec1_bytes(bytes.as_slice()).is_ok()
}

/// Relies on k256's ecdsa Signature::from_slice: given 64 bytes, it
/// accepts exactly the (r, s) encodings with both scalars nonzero
/// and below the curve order.
#[verifier::external_body]
fn sig_check(bytes: &Vec<u8>) -> (r: bool)
    requires
        bytes@.len() == 64,
    ensures
        r == is_valid_sig(bytes@),
{
    k256::ecdsa::Signature::from_slice(bytes.as_slice()).is_ok()
}

/// Relies on k256's ecdsa Verifier::verify: acceptance of a
/// signature over a message under a verifying key is a pure function
/// of the three values, with no failure channel beyond rejection.
#[verifier::external_body]
fn pk_verify(pubkey: &Vec<u8>, msg: &Vec<u8>, sig: &Vec<u8>) -> (r: bool)
    requires
        pubkey@.len() == 33,
        is_valid_point(pubkey@),
        sig@.len() == 64,
        is_valid_sig(sig@),
    ensures
        r == verify_ok(pubkey@, msg@, sig@),
{
    let key = k256::ecdsa::VerifyingKey::from_sec1_bytes(pubkey.as_slice()).unwrap();
    let parsed = k256::ecdsa::Signature::from_slice(sig.as_slice()).unwrap();
    ecdsa::signature::Verifier::verify(&key, msg.as_slice(), &parsed).is_ok()
}

/// A secret scalar on secp256k1, held as its canonical 32-byte
/// big-endian encoding. Never compared for equality.
#[derive(Debug)]
pub struct PrivateKey {
    bytes: Vec<u8>,
}

impl View for PrivateKey {
    type V = Seq<u8>;

    closed spec fn view(&self) -> Seq<u8> {
        self.bytes@
    }
}

/// A point on secp256k1, held as its canonical compressed 33-byte
/// SEC1 encoding. Always derived from a private key or decoded from
/// such an encoding; comparable by value.
#[derive(Debug)]
pub struct PublicKey {
    bytes: Vec<u8>,
}

impl View for PublicKey {
    type V = Seq<u8>;

    closed spec fn view(&self) -> Seq<u8> {
        self.bytes@
    }
}

/// An ECDSA signature, held as its canonical fixed-width 64-byte
/// (r, s) encoding. Immutable once produced.
#[derive(Debug)]
pub struct Signature {
    bytes: Vec<u8>,
}

impl View for Signature {
    type V = Seq<u8>;

    closed spec fn view(&self) -> Seq<u8> {
        self.bytes@
    }
}

impl PrivateKey {
    #[verifier::type_invariant]
    spec fn well_formed(self) -> bool {
        self.bytes@.len() == 32 && is_valid_scalar(self.bytes@)
    }

    /// Draw a fresh key from the operating system's secure random
    /// source. Entropy is never reused across calls.
    pub fn new_key() -> (k: PrivateKey)
        ensures
            k@.len() == 32,
    {
        PrivateKey { bytes: sk_generate() }
    }

    /// Derive the public key of this key: pure, deterministic, and
    /// without a failure mode.
    pub fn public_key(&self) -> (pk: PublicKey)
        ensures
            pk@ == pubkey_of(self@),
    {
        proof {
            use_type_invariant(&*self);
        }
        PublicKey { bytes: sk_derive_public(&self.bytes) }
    }

    /// Sign a digest. The nonce is derived deterministically from
    /// the key and the digest (RFC 6979), so the same inputs always
    /// yield the same signature, and the signature verifies under
    /// this key's public key.
    pub fn sign(&self, hash: &crate::hashing::Hash) -> (sig: Signature)
        ensures
            sig@ == sig_of(self@, hash@),
            verify_ok(pubkey_of(self@), hash@, sig@),
    {
        proof {
            use_type_invariant(&*self);
        }
        Signature { bytes: sk_sign(&self.bytes, hash.as_bytes()) }
    }

    /// The canonical encoding: the raw fixed-width scalar bytes.
    pub fn to_bytes(&self) -> (r: Vec<u8>)
        ensures
            r@ == self@,
            r@.len() == 32,
            is_valid_scalar(r@),
    {
        proof {
            use_type_invariant(&*self);
        }
        copy_bytes(&self.bytes)
    }

    /// Decode a raw scalar encoding. Rejects a wrong length and a
    /// value that is zero or not below the curve order; accepts
    /// everything else, in particular every encoded key.
    pub fn from_bytes(bytes: &Vec<u8>) -> (r: Result<PrivateKey, KeyDecodingError>)
        ensures
            r is Ok <==> decoded_private_key(bytes@) is Some,
            r matches Ok(k) ==> decoded_private_key(bytes@) == Some(k@),
    {
        if bytes.len() != 32 {
            return Err(KeyDecodingError);
        }
        if !sk_check(bytes) {
            return Err(KeyDecodingError);
        }
        Ok(PrivateKey { bytes: copy_bytes(bytes) })
    }
}

impl Clone for PrivateKey {
    fn clone(&self) -> (res: Self)
        ensures
            res@ == self@,
    {
        proof {
            use_type_invariant(&*self);
        }
        PrivateKey { bytes: copy_bytes(&self.bytes) }
    }
}

impl PublicKey {
    #[verifier::type_invariant]
    spec fn well_formed(self) -> bool {
        self.bytes@.len() == 33 && is_valid_point(self.bytes@)
    }

    /// The canonical encoding: the compressed SEC1 point bytes.
    pub fn to_bytes(&self) -> (r: Vec<u8>)
        ensures
            r@ == self@,
            r@.len() == 33,
            is_valid_point(r@),
    {
        proof {
            use_type_invariant(&*self);
        }
        copy_bytes(&self.bytes)
    }

    /// Decode a compressed point encoding. Rejects a wrong length
    /// and bytes that name no curve point; accepts everything else,
    /// in particular every encoded public key.
    pub fn from_bytes(bytes: &Vec<u8>) -> (r: Result<PublicKey, KeyDecodingError>)
        ensures
            r is Ok <==> decoded_public_key(bytes@) is Some,
            r matches Ok(pk) ==> decoded_public_key(bytes@) == Some(pk@),
    {
        if bytes.len() != 33 {
            return Err(KeyDecodingError);
        }
        if !pk_check(bytes) {
            return Err(KeyDecodingError);
        }
        Ok(PublicKey { bytes: copy_bytes(bytes) })
    }
}

impl Clone for PublicKey {
    fn clone(&self) -> (res: Self)
        ensures
            res@ == self@,
    {
        proof {
            use_type_invariant(&*self);
        }
        PublicKey { bytes: copy_bytes(&self.bytes) }
    }
}

impl PartialEq for PublicKey {
    fn eq(&self, other: &Self) -> (r: bool) {
        bytes_eq(&self.bytes, &other.bytes)
    }
}

impl vstd::std_specs::cmp::PartialEqSpecImpl for PublicKey {
    open spec fn obeys_eq_spec() -> bool {
        true
    }

    open spec fn eq_spec(&self, other: &Self) -> bool {
        self@ == other@
    }
}

impl Signature {
    #[verifier::type_invariant]
    spec fn well_formed(self) -> bool {
        self.bytes@.len() == 64 && is_valid_sig(self.bytes@)
    }

    /// Sign a transaction-output digest with the given key.
    pub fn sign_output(output_hash: &crate::hashing::Hash, private_key: &PrivateKey) -> (sig: Signature)
        ensures
            sig@ == sig_of(private_key@, output_hash@),
            verify_ok(pubkey_of(private_key@), output_hash@, sig@),
    {
        private_key.sign(output_hash)
    }

    /// Check this signature against a digest and a public key: a
    /// total boolean gate. Any mismatch of key, digest or signature
    /// yields false, never an error.
    pub fn verify(&self, output_hash: &crate::hashing::Hash, public_key: &PublicKey) -> (r: bool)
        ensures
            r == verify_ok(public_key@, output_hash@, self@),
    {
        proof {
            use_type_invariant(&*self);
            use_type_invariant(&*public_key);
        }
        pk_verify(&public_key.bytes, output_hash.as_bytes(), &self.bytes)
    }

    /// The canonical encoding: the fixed-width (r, s) bytes.
    pub fn to_bytes(&self) -> (r: Vec<u8>)
        ensures
            r@ == self@,
            r@.len() == 64,
            is_valid_sig(r@),
    {
        proof {
            use_type_invariant(&*self);
        }
        copy_bytes(&self.bytes)
    }

    /// Decode a fixed-width (r, s) encoding. Rejects a wrong length
    /// and out-of-range scalars; accepts everything else, in
    /// particular every encoded signature.
    pub fn from_bytes(bytes: &Vec<u8>) -> (r: Result<Signature, KeyDecodingError>)
        ensures
            r is Ok <==> decoded_signature(bytes@) is Some,
            r matches Ok(sig) ==> decoded_signature(bytes@) == Some(sig@),
    {
        if bytes.len() != 64 {
            return Err(KeyDecodingError);
        }
        if !sig_check(bytes) {
            return Err(KeyDecodingError);
        }
        Ok(Signature { bytes: copy_bytes(bytes) })
    }
}

impl Clone for Signature {
    fn clone(&self) -> (res: Self)
        ensures
            res@ == self@,
    {
        proof {
            use_type_invariant(&*self);
        }
        Signature { bytes: copy_bytes(&self.bytes) }
    }
}

/// Law: decoding the canonical encoding of a private key returns the
/// original key bytes. Every key's encoding satisfies the premise:
/// `to_bytes` ensures exactly these two facts of its result.
pub proof fn lemma_private_key_round_trip(key_bytes: Seq<u8>)
    ensures
        key_bytes.len() == 32 && is_valid_scalar(key_bytes) ==> decoded_private_key(key_bytes)
            == Some(key_bytes),
{
}

/// Law: decoding the canonical encoding of a public key returns the
/// original point bytes.
pub proof fn lemma_public_key_round_trip(point_bytes: Seq<u8>)
    ensures
        point_bytes.len() == 33 && is_valid_point(point_bytes) ==> decoded_public_key(point_bytes)
            == Some(point_bytes),
{
}

/// Law: decoding the canonical encoding of a signature returns the
/// original (r, s) bytes.
pub proof fn lemma_signature_round_trip(sig_bytes: Seq<u8>)
    ensures
        sig_bytes.len() == 64 && is_valid_sig(sig_bytes) ==> decoded_signature(sig_bytes)
            == Some(sig_bytes),
{
}

/// Law: public-key derivation is deterministic. Two derivations from
/// the same key bytes yield the same public key.
pub proof fn lemma_public_key_deterministic(key: Seq<u8>, first: Seq<u8>, second: Seq<u8>)
    ensures
        first == pubkey_of(key) && second == pubkey_of(key) ==> first == second,
{
}

/// Law: signing is deterministic. Two signatures produced from the
/// same key and the same digest are byte-identical.
pub proof fn lemma_sign_deterministic(key: Seq<u8>, digest: Seq<u8>, first: Seq<u8>, second: Seq<u8>)
    ensures
        first == sig_of(key, digest) && second == sig_of(key, digest) ==> first == second,
{
}

} // verus!
