//! What holds of signing, verifying and key generation taken together.
//!
//! Each law is stated over the spec functions that the contracts of the
//! executable functions use, so it holds of whatever those functions return.
use crate::cli::TextSignFormat;
use crate::error::TextError;
use crate::process::primitives::{blake3_keyed_hash, ed25519_key_decodes, ed25519_public_key};
use crate::process::text::{
    is_key_pair, is_key_set, is_signature, key_set_spec, sign_spec, signature_len, verify_spec,
    KEY_LEN,
};
use vstd::prelude::*;

verus! {

/// A keyed-hash signature verifies under the key that made it: for every
/// content and every key of at least 32 bytes, signing succeeds and
/// verification of what it returns answers `true`.
pub proof fn keyed_hash_signature_verifies(content: Seq<u8>, key: Seq<u8>)
    requires
        key.len() >= KEY_LEN,
    ensures
        sign_spec(content, key, TextSignFormat::Blake3) is Ok,
        verify_spec(
            content,
            key,
            sign_spec(content, key, TextSignFormat::Blake3)->Ok_0,
            TextSignFormat::Blake3,
        ) == Ok::<bool, TextError>(true),
{
}

/// A digital signature verifies under the public key of the seed that made
/// it: for every content and every key pair, verification of what signing
/// with the seed returns answers `true`.
pub proof fn digital_signature_verifies(
    content: Seq<u8>,
    seed: Seq<u8>,
    public: Seq<u8>,
    signature: Seq<u8>,
)
    requires
        is_key_pair(seed, public),
        is_signature(content, seed, TextSignFormat::Ed25519, signature),
    ensures
        verify_spec(content, public, signature, TextSignFormat::Ed25519) == Ok::<bool, TextError>(
            true,
        ),
{
    assert(signature.take(64) =~= signature);
}

/// Verification raises no error for other content or another key: where it
/// gives an answer for one content and key, it gives an answer for every
/// content and for every key that is long enough.
pub proof fn tampering_raises_no_error(
    content: Seq<u8>,
    key: Seq<u8>,
    signature: Seq<u8>,
    format: TextSignFormat,
    other_content: Seq<u8>,
    other_key: Seq<u8>,
)
    requires
        verify_spec(content, key, signature, format) is Ok,
        other_key.len() >= KEY_LEN,
    ensures
        verify_spec(other_content, other_key, signature, format) is Ok,
{
}

/// Verification raises length errors and no others: whatever is wrong with
/// a key or a signature that is long enough, the answer is `Ok`.
pub proof fn verification_raises_only_length_errors(
    content: Seq<u8>,
    key: Seq<u8>,
    signature: Seq<u8>,
    format: TextSignFormat,
)
    ensures
        verify_spec(content, key, signature, format) is Ok <==> key.len() >= KEY_LEN
            && signature.len() >= signature_len(format),
        verify_spec(content, key, signature, format) matches Err(error) ==> error
            == TextError::InvalidKeyLength || error == TextError::InvalidSignatureLength,
{
}

/// Under a public key that does not decode, a signature that is long enough
/// is answered with `false`.
pub proof fn undecodable_public_key_gives_false(
    content: Seq<u8>,
    key: Seq<u8>,
    signature: Seq<u8>,
)
    requires
        key.len() >= KEY_LEN,
        signature.len() >= signature_len(TextSignFormat::Ed25519),
        !ed25519_key_decodes(key.take(KEY_LEN as int)),
    ensures
        verify_spec(content, key, signature, TextSignFormat::Ed25519) == Ok::<bool, TextError>(
            false,
        ),
{
}

/// A keyed-hash signature checked against other content or under another key
/// is answered with `false`, unless the two keyed hashes are the same 32
/// bytes.
pub proof fn keyed_hash_tampering_is_detected(
    content: Seq<u8>,
    key: Seq<u8>,
    other_content: Seq<u8>,
    other_key: Seq<u8>,
)
    requires
        key.len() >= KEY_LEN,
        other_key.len() >= KEY_LEN,
    ensures
        verify_spec(
            other_content,
            other_key,
            sign_spec(content, key, TextSignFormat::Blake3)->Ok_0,
            TextSignFormat::Blake3,
        ) == Ok::<bool, TextError>(
            blake3_keyed_hash(key.take(KEY_LEN as int), content)@ == blake3_keyed_hash(
                other_key.take(KEY_LEN as int),
                other_content,
            )@,
        ),
{
}

/// A key of fewer than 32 bytes is turned down, by signing and by verifying,
/// whatever the scheme, the content and the signature.
pub proof fn short_key_is_rejected(
    content: Seq<u8>,
    key: Seq<u8>,
    signature: Seq<u8>,
    format: TextSignFormat,
)
    requires
        key.len() < KEY_LEN,
    ensures
        sign_spec(content, key, format) == Err::<Seq<u8>, TextError>(TextError::InvalidKeyLength),
        verify_spec(content, key, signature, format) == Err::<bool, TextError>(
            TextError::InvalidKeyLength,
        ),
{
}

/// Under a key that is long enough, a signature shorter than the scheme's is
/// turned down as malformed, and never answered with `false`.
pub proof fn short_signature_is_rejected(
    content: Seq<u8>,
    key: Seq<u8>,
    signature: Seq<u8>,
    format: TextSignFormat,
)
    requires
        key.len() >= KEY_LEN,
        signature.len() < signature_len(format),
    ensures
        verify_spec(content, key, signature, format) == Err::<bool, TextError>(
            TextError::InvalidSignatureLength,
        ),
{
}

/// A generated key set holds one blob under the keyed hash and two under the
/// digital signature, each of 32 bytes, each under a name of its own.
pub proof fn key_set_shape(format: TextSignFormat, blobs: Seq<(Seq<char>, Seq<u8>)>)
    requires
        is_key_set(format, blobs),
    ensures
        format == TextSignFormat::Blake3 ==> blobs.len() == 1,
        format == TextSignFormat::Ed25519 ==> blobs.len() == 2,
        forall|i: int| 0 <= i < blobs.len() ==> (#[trigger] blobs[i]).1.len() == KEY_LEN,
        forall|i: int, j: int| 0 <= i < j < blobs.len() ==> blobs[i].0 != blobs[j].0,
{
    if format == TextSignFormat::Ed25519 {
        reveal_strlit("ed25519.sk");
        reveal_strlit("ed25519.pk");
        assert(blobs[0].0[8] != blobs[1].0[8]);
    }
}

/// The blobs made from 32 bytes are a key set, where the public key made from
/// them decodes.
pub proof fn key_set_of_seed(format: TextSignFormat, seed: Seq<u8>)
    requires
        seed.len() == KEY_LEN,
        format == TextSignFormat::Ed25519 ==> ed25519_key_decodes(ed25519_public_key(seed)@),
    ensures
        is_key_set(format, key_set_spec(format, seed)),
{
}

/// The two halves of a generated key pair belong together: what signing with
/// the first blob returns, for any content, verifies under the second.
pub proof fn generated_pair_is_consistent(
    blobs: Seq<(Seq<char>, Seq<u8>)>,
    content: Seq<u8>,
    signature: Seq<u8>,
)
    requires
        is_key_set(TextSignFormat::Ed25519, blobs),
        is_signature(content, blobs[0].1, TextSignFormat::Ed25519, signature),
    ensures
        verify_spec(content, blobs[1].1, signature, TextSignFormat::Ed25519) == Ok::<
            bool,
            TextError,
        >(true),
{
    assert(blobs[0].1.take(32) =~= blobs[0].1);
    assert(blobs[1].1.take(32) =~= blobs[1].1);
    assert(is_key_pair(blobs[0].1, blobs[1].1));
    digital_signature_verifies(content, blobs[0].1, blobs[1].1, signature);
}

/// Keyed-hash signing is deterministic: two signatures of one content under
/// one key are the same bytes.
pub proof fn keyed_hash_signing_is_deterministic(
    content: Seq<u8>,
    key: Seq<u8>,
    first: Seq<u8>,
    second: Seq<u8>,
)
    requires
        is_signature(content, key, TextSignFormat::Blake3, first),
        is_signature(content, key, TextSignFormat::Blake3, second),
    ensures
        first == second,
{
}

/// Whatever two digital signatures of one content under one seed are, each
/// verifies under the seed's public key.
pub proof fn both_digital_signatures_verify(
    content: Seq<u8>,
    seed: Seq<u8>,
    public: Seq<u8>,
    first: Seq<u8>,
    second: Seq<u8>,
)
    requires
        is_key_pair(seed, public),
        is_signature(content, seed, TextSignFormat::Ed25519, first),
        is_signature(content, seed, TextSignFormat::Ed25519, second),
    ensures
        verify_spec(content, public, first, TextSignFormat::Ed25519) == Ok::<bool, TextError>(true),
        verify_spec(content, public, second, TextSignFormat::Ed25519) == Ok::<bool, TextError>(
            true,
        ),
{
    digital_signature_verifies(content, seed, public, first);
    digital_signature_verifies(content, seed, public, second);
}

} // verus!
