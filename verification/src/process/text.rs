//! Signing and verifying content that is held in memory, under one of two
//! schemes, and making fresh keys for either.
//!
//! The caller reads the content, the key and the signature and hands them in
//! as bytes; what is made here is handed back as bytes. Nothing is kept
//! between two calls.
//!
//! A key buffer must hold at least 32 bytes. Bytes beyond the first 32 are
//! ignored, so a key file may end in a line break. A signature buffer must
//! hold at least the scheme's signature: 32 bytes for the keyed hash, 64 for
//! the digital signature.
use crate::bytes::{bytes_equal, leading_bytes};
use crate::cli::TextSignFormat;
use crate::error::TextError;
use crate::process::primitives::{
    blake3_keyed_hash, derive_public_key, ed25519_accepts, ed25519_key_decodes,
    ed25519_public_key, ed25519_signature, keyed_hash, os_random_seed, public_key_accepts,
    public_key_decodes, sign_with_seed,
};
use vstd::prelude::*;

verus! {

/// The number of key bytes that either scheme uses.
pub const KEY_LEN: usize = 32;

/// The length of a keyed-hash signature.
pub const DIGEST_LEN: usize = 32;

/// The length of a digital signature.
pub const SIGNATURE_LEN: usize = 64;

/// The name under which a fresh keyed-hash key is handed out.
pub const BLAKE3_KEY_NAME: &'static str = "blake3.txt";

/// The name under which a fresh signing seed is handed out.
pub const ED25519_SEED_NAME: &'static str = "ed25519.sk";

/// The name under which the public key of a fresh seed is handed out.
pub const ED25519_PUBLIC_NAME: &'static str = "ed25519.pk";

/// An outcome with its value replaced by the value's view.
pub open spec fn outcome_view<T: View, E>(outcome: Result<T, E>) -> Result<T::V, E> {
    match outcome {
        Ok(value) => Ok(value@),
        Err(error) => Err(error),
    }
}

/// The length of a signature of `format`.
pub open spec fn signature_len(format: TextSignFormat) -> nat {
    match format {
        TextSignFormat::Blake3 => DIGEST_LEN as nat,
        TextSignFormat::Ed25519 => SIGNATURE_LEN as nat,
    }
}

/// What signing `content` with `key` under `format` gives.
pub open spec fn sign_spec(content: Seq<u8>, key: Seq<u8>, format: TextSignFormat) -> Result<
    Seq<u8>,
    TextError,
> {
    if key.len() < KEY_LEN {
        Err(TextError::InvalidKeyLength)
    } else {
        match format {
            TextSignFormat::Blake3 => Ok(blake3_keyed_hash(key.take(KEY_LEN as int), content)@),
            TextSignFormat::Ed25519 => Ok(ed25519_signature(key.take(KEY_LEN as int), content)@),
        }
    }
}

/// Whether `signature` is what signing `content` with `key` under `format`
/// hands out. A digital signature, besides being the one that belongs to seed
/// and content, is accepted by the seed's public key.
pub open spec fn is_signature(
    content: Seq<u8>,
    key: Seq<u8>,
    format: TextSignFormat,
    signature: Seq<u8>,
) -> bool {
    &&& sign_spec(content, key, format) == Ok::<Seq<u8>, TextError>(signature)
    &&& format == TextSignFormat::Ed25519 ==> ed25519_accepts(
        ed25519_public_key(key.take(KEY_LEN as int))@,
        content,
        signature,
    )
}

/// What verifying `signature` against `content` with `key` under `format`
/// gives. The key's length is looked at first, then the signature's; nothing
/// else is an error. A signature that is long enough and does not match gives
/// `Ok(false)`, and so does every signature under a public key that does not
/// decode.
pub open spec fn verify_spec(
    content: Seq<u8>,
    key: Seq<u8>,
    signature: Seq<u8>,
    format: TextSignFormat,
) -> Result<bool, TextError> {
    if key.len() < KEY_LEN {
        Err(TextError::InvalidKeyLength)
    } else if signature.len() < signature_len(format) {
        Err(TextError::InvalidSignatureLength)
    } else {
        match format {
            TextSignFormat::Blake3 => Ok(
                signature == blake3_keyed_hash(key.take(KEY_LEN as int), content)@,
            ),
            TextSignFormat::Ed25519 => Ok(
                ed25519_key_decodes(key.take(KEY_LEN as int)) && ed25519_accepts(
                    key.take(KEY_LEN as int),
                    content,
                    signature.take(SIGNATURE_LEN as int),
                ),
            ),
        }
    }
}

/// Whether `public` is the public key of `seed`: it starts with the 32 bytes
/// that the scheme derives from the seed's first 32, and they decode.
pub open spec fn is_key_pair(seed: Seq<u8>, public: Seq<u8>) -> bool {
    &&& seed.len() >= KEY_LEN
    &&& public.len() >= KEY_LEN
    &&& public.take(KEY_LEN as int) == ed25519_public_key(seed.take(KEY_LEN as int))@
    &&& ed25519_key_decodes(public.take(KEY_LEN as int))
}

/// Something that signs content.
pub trait TextSigner {
    /// What `sign` gives for `content`.
    spec fn signature_spec(&self, content: Seq<u8>) -> Result<Seq<u8>, TextError>;

    /// Signs the whole of `content`.
    fn sign(&self, content: &[u8]) -> (outcome: Result<Vec<u8>, TextError>)
        ensures
            outcome_view(outcome) == self.signature_spec(content@),
    ;
}

/// Something that checks a signature against content.
pub trait TextVerifier {
    /// What `verify` gives for `content` and `signature`.
    spec fn verdict_spec(&self, content: Seq<u8>, signature: Seq<u8>) -> Result<bool, TextError>;

    /// Says whether `sig` is a signature of the whole of `content`.
    fn verify(&self, content: &[u8], sig: &[u8]) -> (outcome: Result<bool, TextError>)
        ensures
            outcome == self.verdict_spec(content@, sig@),
    ;
}

/// A key under a name, as the generator hands it out for the caller to store.
#[derive(Debug, Clone, PartialEq, Eq)]
pub struct KeyBlob {
    /// The name that tells the blobs of one scheme apart.
    pub name: &'static str,
    /// The key, as it is to be stored.
    pub bytes: Vec<u8>,
}

impl View for KeyBlob {
    type V = (Seq<char>, Seq<u8>);

    open spec fn view(&self) -> (Seq<char>, Seq<u8>) {
        (self.name@, self.bytes@)
    }
}

/// The names and bytes of a list of blobs, in the list's order.
pub open spec fn blob_views(blobs: Seq<KeyBlob>) -> Seq<(Seq<char>, Seq<u8>)> {
    blobs.map_values(|blob: KeyBlob| blob@)
}

/// The blobs that belong to the 32 random bytes of `seed` under `format`: the
/// bytes themselves as the keyed-hash key, or as the signing seed followed by
/// its public key.
pub open spec fn key_set_spec(format: TextSignFormat, seed: Seq<u8>) -> Seq<(Seq<char>, Seq<u8>)> {
    match format {
        TextSignFormat::Blake3 => seq![(BLAKE3_KEY_NAME@, seed)],
        TextSignFormat::Ed25519 => seq![
            (ED25519_SEED_NAME@, seed),
            (ED25519_PUBLIC_NAME@, ed25519_public_key(seed)@),
        ],
    }
}

/// Whether `blobs` is what the generator hands out for `format`: one blob of
/// 32 bytes for the keyed hash; for the digital signature a seed of 32 bytes,
/// then the public key that belongs to it, which decodes.
pub open spec fn is_key_set(format: TextSignFormat, blobs: Seq<(Seq<char>, Seq<u8>)>) -> bool {
    match format {
        TextSignFormat::Blake3 => {
            &&& blobs.len() == 1
            &&& blobs[0].0 == BLAKE3_KEY_NAME@
            &&& blobs[0].1.len() == KEY_LEN
        },
        TextSignFormat::Ed25519 => {
            &&& blobs.len() == 2
            &&& blobs[0].0 == ED25519_SEED_NAME@
            &&& blobs[0].1.len() == KEY_LEN
            &&& blobs[1].0 == ED25519_PUBLIC_NAME@
            &&& blobs[1].1 == ed25519_public_key(blobs[0].1)@
            &&& ed25519_key_decodes(blobs[1].1)
        },
    }
}

/// The keyed-hash scheme with its key.
pub struct Blake3 {
    key: [u8; 32],
}

impl View for Blake3 {
    type V = Seq<u8>;

    /// The 32 bytes of the key.
    closed spec fn view(&self) -> Seq<u8> {
        self.key@
    }
}

impl Blake3 {
    /// The scheme with `key`.
    pub fn new(key: [u8; 32]) -> (signer: Self)
        ensures
            signer@ == key@,
    {
        Self { key }
    }

    /// The scheme with the first 32 bytes of `key`.
    pub fn try_new(key: &[u8]) -> (outcome: Result<Self, TextError>)
        ensures
            outcome_view(outcome) == if key@.len() < KEY_LEN {
                Err::<Seq<u8>, TextError>(TextError::InvalidKeyLength)
            } else {
                Ok(key@.take(KEY_LEN as int))
            },
    {
        if key.len() < KEY_LEN {
            return Err(TextError::InvalidKeyLength);
        }
        Ok(Blake3::new(leading_bytes::<32>(key)))
    }

    /// The one blob of a fresh key: the 32 random bytes of `seed`.
    pub fn generate(seed: [u8; 32]) -> (blobs: Vec<KeyBlob>)
        ensures
            blob_views(blobs@) == key_set_spec(TextSignFormat::Blake3, seed@),
    {
        let mut blobs: Vec<KeyBlob> = Vec::new();
        blobs.push(KeyBlob { name: BLAKE3_KEY_NAME, bytes: array_to_vec(&seed) });
        assert(blob_views(blobs@) =~= key_set_spec(TextSignFormat::Blake3, seed@));
        blobs
    }
}

impl TextSigner for Blake3 {
    open spec fn signature_spec(&self, content: Seq<u8>) -> Result<Seq<u8>, TextError> {
        Ok(blake3_keyed_hash(self@, content)@)
    }

    /// The keyed hash of `content`: 32 bytes.
    fn sign(&self, content: &[u8]) -> (outcome: Result<Vec<u8>, TextError>) {
        let digest = keyed_hash(&self.key, content);
        Ok(array_to_vec(&digest))
    }
}

impl TextVerifier for Blake3 {
    open spec fn verdict_spec(&self, content: Seq<u8>, signature: Seq<u8>) -> Result<
        bool,
        TextError,
    > {
        if signature.len() < DIGEST_LEN {
            Err(TextError::InvalidSignatureLength)
        } else {
            Ok(signature == blake3_keyed_hash(self@, content)@)
        }
    }

    /// Whether `sig` is the keyed hash of `content`, byte for byte. A longer
    /// buffer is no signature of anything.
    fn verify(&self, content: &[u8], sig: &[u8]) -> (outcome: Result<bool, TextError>) {
        if sig.len() < DIGEST_LEN {
            return Err(TextError::InvalidSignatureLength);
        }
        let digest = keyed_hash(&self.key, content);
        Ok(bytes_equal(digest.as_slice(), sig))
    }
}

/// The signing half of the digital-signature scheme, with its seed.
pub struct Ed25519Signer {
    seed: [u8; 32],
}

impl View for Ed25519Signer {
    type V = Seq<u8>;

    /// The 32 bytes of the seed.
    closed spec fn view(&self) -> Seq<u8> {
        self.seed@
    }
}

impl Ed25519Signer {
    /// The signer with the first 32 bytes of `key` as its seed.
    pub fn try_new(key: &[u8]) -> (outcome: Result<Self, TextError>)
        ensures
            outcome_view(outcome) == if key@.len() < KEY_LEN {
                Err::<Seq<u8>, TextError>(TextError::InvalidKeyLength)
            } else {
                Ok(key@.take(KEY_LEN as int))
            },
    {
        if key.len() < KEY_LEN {
            return Err(TextError::InvalidKeyLength);
        }
        let seed = leading_bytes::<32>(key);
        Ok(Ed25519Signer::new(&seed))
    }

    /// The signer with `key` as its seed. Every 32 bytes are a seed.
    pub fn new(key: &[u8; 32]) -> (signer: Self)
        ensures
            signer@ == key@,
    {
        Self { seed: *key }
    }

    /// The public key that verifies what this signer signs.
    pub fn public_key(&self) -> (public: [u8; 32])
        ensures
            public == ed25519_public_key(self@),
            ed25519_key_decodes(public@),
    {
        derive_public_key(&self.seed)
    }

    /// The two blobs of a fresh key pair: the 32 random bytes of `seed` as
    /// the signing seed, then the public key that belongs to them.
    pub fn generate(seed: [u8; 32]) -> (blobs: Vec<KeyBlob>)
        ensures
            blob_views(blobs@) == key_set_spec(TextSignFormat::Ed25519, seed@),
            ed25519_key_decodes(ed25519_public_key(seed@)@),
    {
        let signer = Ed25519Signer::new(&seed);
        let public = signer.public_key();
        let mut blobs: Vec<KeyBlob> = Vec::new();
        blobs.push(KeyBlob { name: ED25519_SEED_NAME, bytes: array_to_vec(&seed) });
        blobs.push(KeyBlob { name: ED25519_PUBLIC_NAME, bytes: array_to_vec(&public) });
        assert(blob_views(blobs@) =~= key_set_spec(TextSignFormat::Ed25519, seed@));
        blobs
    }
}

impl TextSigner for Ed25519Signer {
    open spec fn signature_spec(&self, content: Seq<u8>) -> Result<Seq<u8>, TextError> {
        Ok(ed25519_signature(self@, content)@)
    }

    /// The signature of `content`: 64 bytes, which this signer's public key
    /// accepts.
    fn sign(&self, content: &[u8]) -> (outcome: Result<Vec<u8>, TextError>)
        ensures
            outcome matches Ok(signature) ==> ed25519_accepts(
                ed25519_public_key(self@)@,
                content@,
                signature@,
            ),
    {
        let signature = sign_with_seed(&self.seed, content);
        Ok(array_to_vec(&signature))
    }
}

/// The verifying half of the digital-signature scheme, with a public key that
/// decodes.
pub struct Ed25519Verifier {
    key: [u8; 32],
}

impl View for Ed25519Verifier {
    type V = Seq<u8>;

    /// The 32 bytes of the public key.
    closed spec fn view(&self) -> Seq<u8> {
        self.key@
    }
}

/// What loading the public key in `key` gives: its first 32 bytes, if there
/// are as many and they decode.
pub open spec fn public_key_spec(key: Seq<u8>) -> Result<Seq<u8>, TextError> {
    if key.len() < KEY_LEN {
        Err(TextError::InvalidKeyLength)
    } else if !ed25519_key_decodes(key.take(KEY_LEN as int)) {
        Err(TextError::InvalidKeyEncoding)
    } else {
        Ok(key.take(KEY_LEN as int))
    }
}

impl Ed25519Verifier {
    #[verifier::type_invariant]
    spec fn decodes(self) -> bool {
        ed25519_key_decodes(self.key@)
    }

    /// The verifier with the first 32 bytes of `key` as its public key.
    pub fn try_new(key: &[u8]) -> (outcome: Result<Self, TextError>)
        ensures
            outcome_view(outcome) == public_key_spec(key@),
    {
        if key.len() < KEY_LEN {
            return Err(TextError::InvalidKeyLength);
        }
        let public = leading_bytes::<32>(key);
        if !public_key_decodes(&public) {
            return Err(TextError::InvalidKeyEncoding);
        }
        Ok(Self { key: public })
    }
}

impl TextVerifier for Ed25519Verifier {
    open spec fn verdict_spec(&self, content: Seq<u8>, signature: Seq<u8>) -> Result<
        bool,
        TextError,
    > {
        if signature.len() < SIGNATURE_LEN {
            Err(TextError::InvalidSignatureLength)
        } else {
            Ok(ed25519_accepts(self@, content, signature.take(SIGNATURE_LEN as int)))
        }
    }

    /// Whether the first 64 bytes of `sig` are a signature of `content` that
    /// the public key accepts. Whatever else is wrong with them, the answer is
    /// `Ok(false)`.
    fn verify(&self, content: &[u8], sig: &[u8]) -> (outcome: Result<bool, TextError>) {
        if sig.len() < SIGNATURE_LEN {
            return Err(TextError::InvalidSignatureLength);
        }
        proof {
            use_type_invariant(self);
        }
        let signature = leading_bytes::<64>(sig);
        Ok(public_key_accepts(&self.key, content, &signature))
    }
}

/// The bytes of an array as a vector.
fn array_to_vec<const N: usize>(bytes: &[u8; N]) -> (copy: Vec<u8>)
    ensures
        copy@ == bytes@,
{
    vstd::slice::slice_to_vec(bytes.as_slice())
}

/// The length of a signature of `format`.
pub fn signature_length(format: TextSignFormat) -> (len: usize)
    ensures
        len == signature_len(format),
{
    match format {
        TextSignFormat::Blake3 => DIGEST_LEN,
        TextSignFormat::Ed25519 => SIGNATURE_LEN,
    }
}

/// Signs `content` with `key` under `format`.
///
/// Fails only on a key of fewer than 32 bytes. The keyed-hash signature has
/// 32 bytes, the digital signature 64.
pub fn process_text_sign(content: &[u8], key: &[u8], format: TextSignFormat) -> (outcome: Result<
    Vec<u8>,
    TextError,
>)
    ensures
        outcome_view(outcome) == sign_spec(content@, key@, format),
        outcome matches Ok(signature) ==> is_signature(content@, key@, format, signature@),
{
    match format {
        TextSignFormat::Blake3 => {
            let signer = Blake3::try_new(key)?;
            signer.sign(content)
        },
        TextSignFormat::Ed25519 => {
            let signer = Ed25519Signer::try_new(key)?;
            signer.sign(content)
        },
    }
}

/// Says whether `sig` is a signature of `content` under `key` and `format`.
///
/// An error tells of a buffer that is too short, and of nothing else: the
/// key's length is looked at first, then the signature's. A signature that
/// does not match is answered with `Ok(false)`, and so is every signature
/// under a public key that does not decode.
pub fn process_text_verify(content: &[u8], key: &[u8], sig: &[u8], format: TextSignFormat) -> (outcome:
    Result<bool, TextError>)
    ensures
        outcome == verify_spec(content@, key@, sig@, format),
{
    if key.len() < KEY_LEN {
        return Err(TextError::InvalidKeyLength);
    }
    if sig.len() < signature_length(format) {
        return Err(TextError::InvalidSignatureLength);
    }
    match format {
        TextSignFormat::Blake3 => {
            let verifier = Blake3::try_new(key)?;
            verifier.verify(content, sig)
        },
        TextSignFormat::Ed25519 => match Ed25519Verifier::try_new(key) {
            Ok(verifier) => verifier.verify(content, sig),
            Err(_) => Ok(false),
        },
    }
}

/// The blobs of a fresh key of `format`, made from the 32 random bytes of
/// `seed`.
pub fn generate_from_seed(format: TextSignFormat, seed: [u8; 32]) -> (blobs: Vec<KeyBlob>)
    ensures
        blob_views(blobs@) == key_set_spec(format, seed@),
        is_key_set(format, blob_views(blobs@)),
{
    match format {
        TextSignFormat::Blake3 => Blake3::generate(seed),
        TextSignFormat::Ed25519 => Ed25519Signer::generate(seed),
    }
}

/// Makes a fresh key of `format` from 32 bytes of the operating system's
/// random source: one blob for the keyed hash, two for the digital signature.
///
/// Fails only where the random source does.
pub fn process_text_key_generate(format: TextSignFormat) -> (outcome: Result<Vec<KeyBlob>, TextError>)
    ensures
        match outcome {
            Ok(blobs) => is_key_set(format, blob_views(blobs@)),
            Err(error) => error == TextError::RngUnavailable,
        },
{
    match os_random_seed() {
        Ok(seed) => Ok(generate_from_seed(format, seed)),
        Err(_) => Err(TextError::RngUnavailable),
    }
}

} // verus!
