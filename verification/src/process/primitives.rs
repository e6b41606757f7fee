//! The cryptographic primitives and the random source, as this library sees
//! them.
//!
//! Nothing in this module is proved. Each function below makes one call into
//! `blake3`, `ed25519-dalek` or `rand`, and its contract is taken on trust
//! from that crate's source and documentation. The spec functions without a
//! body name what those calls return; all that is known of them is what the
//! contracts here say.
use ed25519_dalek::{Signature, Signer, SigningKey, Verifier, VerifyingKey};
use rand::rngs::OsRng;
use rand::RngCore;
use vstd::prelude::*;

verus! {

/// The BLAKE3 keyed hash of `content` under the 32-byte `key`.
pub uninterp spec fn blake3_keyed_hash(key: Seq<u8>, content: Seq<u8>) -> [u8; 32];

/// The Ed25519 verifying key that belongs to the 32-byte signing `seed`.
pub uninterp spec fn ed25519_public_key(seed: Seq<u8>) -> [u8; 32];

/// The Ed25519 signature that the signing key made from `seed` puts on
/// `content`.
pub uninterp spec fn ed25519_signature(seed: Seq<u8>, content: Seq<u8>) -> [u8; 64];

/// Whether the 32 bytes of `public` are the encoding of a point that
/// `ed25519-dalek` takes as a verifying key.
pub uninterp spec fn ed25519_key_decodes(public: Seq<u8>) -> bool;

/// Whether the verifying key encoded by `public` takes the 64 bytes of
/// `signature` as a signature of `content`.
pub uninterp spec fn ed25519_accepts(public: Seq<u8>, content: Seq<u8>, signature: Seq<u8>) -> bool;

/// The error of the operating system's random source.
#[verifier::external_type_specification]
#[verifier::external_body]
pub struct ExRandError(rand::Error);

/// Calls `blake3::keyed_hash` and copies the 32 bytes out of the `Hash` it
/// returns.
///
/// Trusted: the digest depends on the key and the content alone.
#[verifier::external_body]
pub(crate) fn keyed_hash(key: &[u8; 32], content: &[u8]) -> (digest: [u8; 32])
    ensures
        digest == blake3_keyed_hash(key@, content@),
{
    *blake3::keyed_hash(key, content).as_bytes()
}

/// Calls `SigningKey::from_bytes` and hands out the bytes of the signing
/// key's `verifying_key`.
///
/// Trusted: the verifying key depends on the seed alone, and its bytes decode
/// again (`VerifyingKey` keeps the point together with its encoding).
#[verifier::external_body]
pub(crate) fn derive_public_key(seed: &[u8; 32]) -> (public: [u8; 32])
    ensures
        public == ed25519_public_key(seed@),
        ed25519_key_decodes(public@),
{
    SigningKey::from_bytes(seed).verifying_key().to_bytes()
}

/// Calls `Signer::sign` on the `SigningKey` made from `seed`.
///
/// Trusted: the signature depends on the seed and the content alone (the
/// nonce is derived from both, not drawn at random), and the verifying key of
/// the same seed accepts it, as the crate's documentation shows for every
/// signing key and message.
#[verifier::external_body]
pub(crate) fn sign_with_seed(seed: &[u8; 32], content: &[u8]) -> (signature: [u8; 64])
    ensures
        signature == ed25519_signature(seed@, content@),
        ed25519_accepts(ed25519_public_key(seed@)@, content@, signature@),
{
    SigningKey::from_bytes(seed).sign(content).to_bytes()
}

/// Calls `VerifyingKey::from_bytes` and says whether it returned a key.
///
/// Trusted: whether the bytes decode depends on the bytes alone.
#[verifier::external_body]
pub(crate) fn public_key_decodes(public: &[u8; 32]) -> (decodes: bool)
    ensures
        decodes == ed25519_key_decodes(public@),
{
    VerifyingKey::from_bytes(public).is_ok()
}

/// Calls `Verifier::verify` on the `VerifyingKey` decoded from `public`, with
/// the `Signature` read from the 64 bytes, and says whether it returned `Ok`.
///
/// Trusted: the answer depends on the key, the content and the signature
/// alone. Every failure that `verify` reports becomes `false`.
#[verifier::external_body]
pub(crate) fn public_key_accepts(public: &[u8; 32], content: &[u8], signature: &[u8; 64]) -> (accepted: bool)
    requires
        ed25519_key_decodes(public@),
    ensures
        accepted == ed25519_accepts(public@, content@, signature@),
{
    match VerifyingKey::from_bytes(public) {
        Ok(key) => key.verify(content, &Signature::from_bytes(signature)).is_ok(),
        Err(_) => false,
    }
}

/// Calls `RngCore::try_fill_bytes` on `OsRng` for 32 bytes.
///
/// Nothing is promised of the outcome: the bytes differ from call to call,
/// and the random source may fail.
#[verifier::external_body]
pub(crate) fn os_random_seed() -> (outcome: Result<[u8; 32], rand::Error>) {
    let mut seed = [0u8; 32];
    match OsRng.try_fill_bytes(&mut seed) {
        Ok(()) => Ok(seed),
        Err(error) => Err(error),
    }
}

} // verus!
