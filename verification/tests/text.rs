use base64::engine::general_purpose::URL_SAFE_NO_PAD;
use base64::Engine;
use rcli::process::text::{
    generate_from_seed, process_text_key_generate, process_text_sign, process_text_verify,
    signature_length, Blake3, Ed25519Signer, Ed25519Verifier, KeyBlob, TextSigner, TextVerifier,
};
use rcli::{TextError, TextSignFormat};

/// The 32-byte key of the BLAKE3 test vectors.
const KEY: &[u8] = b"whats the Elvish word for friend";

/// The secret key of the first test of RFC 8032, section 7.1.
const SK: [u8; 32] = [
    0x9d, 0x61, 0xb1, 0x9d, 0xef, 0xfd, 0x5a, 0x60, 0xba, 0x84, 0x4a, 0xf4, 0x92, 0xec, 0x2c, 0xc4,
    0x44, 0x49, 0xc5, 0x69, 0x7b, 0x32, 0x69, 0x19, 0x70, 0x3b, 0xac, 0x03, 0x1c, 0xae, 0x7f, 0x60,
];

/// The public key of the first test of RFC 8032, section 7.1.
const PK: [u8; 32] = [
    0xd7, 0x5a, 0x98, 0x01, 0x82, 0xb1, 0x0a, 0xb7, 0xd5, 0x4b, 0xfe, 0xd3, 0xc9, 0x64, 0x07, 0x3a,
    0x0e, 0xe1, 0x72, 0xf3, 0xda, 0xa6, 0x23, 0x25, 0xaf, 0x02, 0x1a, 0x68, 0xf7, 0x07, 0x51, 0x1a,
];

/// The signature that the first test of RFC 8032, section 7.1, records for
/// the empty message.
const EMPTY_SIGNATURE: [u8; 64] = [
    0xe5, 0x56, 0x43, 0x00, 0xc3, 0x60, 0xac, 0x72, 0x90, 0x86, 0xe2, 0xcc, 0x80, 0x6e, 0x82, 0x8a,
    0x84, 0x87, 0x7f, 0x1e, 0xb8, 0xe5, 0xd9, 0x74, 0xd8, 0x73, 0xe0, 0x65, 0x22, 0x49, 0x01, 0x55,
    0x5f, 0xb8, 0x82, 0x15, 0x90, 0xa3, 0x3b, 0xac, 0xc6, 0x1e, 0x39, 0x70, 0x1c, 0xf9, 0xb4, 0x6b,
    0xd2, 0x5b, 0xf5, 0xf0, 0x59, 0x5b, 0xbe, 0x24, 0x65, 0x51, 0x41, 0x43, 0x8e, 0x7a, 0x10, 0x0b,
];

/// The keyed hash that the BLAKE3 test vectors record for the empty input.
const EMPTY_DIGEST: [u8; 32] = [
    0x92, 0xb2, 0xb7, 0x56, 0x04, 0xed, 0x3c, 0x76, 0x1f, 0x9d, 0x6f, 0x62, 0x39, 0x2c, 0x8a, 0x92,
    0x27, 0xad, 0x0e, 0xa3, 0xf0, 0x95, 0x73, 0xe7, 0x83, 0xf1, 0x49, 0x8a, 0x4e, 0xd6, 0x0d, 0x26,
];

/// The keyed hash of `hello` under `KEY`, in the form in which signatures
/// travel.
const HELLO_DIGEST: &str = "_hCGiZAwbTIZOtWSKxuXRdHtox2r5TBP4x4jdNZMMqE";

/// 32 bytes that encode no point of the curve.
fn no_public_key() -> [u8; 32] {
    let mut key = [0u8; 32];
    key[0] = 2;
    key
}

#[test]
fn test_process_text_blake3_sign() {
    let format = TextSignFormat::Blake3;
    let sig = process_text_sign("hello".as_bytes(), KEY, format).unwrap();
    let ret = process_text_verify("hello".as_bytes(), KEY, &sig, format).unwrap();
    assert!(ret);
}

#[test]
fn test_process_ed25519_sign_verify() {
    let format = TextSignFormat::Ed25519;
    let sig = process_text_sign("hello".as_bytes(), &SK, format).unwrap();
    let ret = process_text_verify("hello".as_bytes(), &PK, &sig, format).unwrap();
    assert!(ret);
}

#[test]
fn blake3_known_answer() {
    let sig = process_text_sign("hello".as_bytes(), KEY, TextSignFormat::Blake3).unwrap();
    assert_eq!(sig.len(), 32);
    assert_eq!(URL_SAFE_NO_PAD.encode(&sig), HELLO_DIGEST);
    let empty = process_text_sign(&[], KEY, TextSignFormat::Blake3).unwrap();
    assert_eq!(empty, EMPTY_DIGEST.to_vec());
}

#[test]
fn test_process_text_blake3_verify() {
    let format = TextSignFormat::Blake3;
    let sig = "_hCGiZAwbTIZOtWSKxuXRdHtox2r5TBP4x4jdNZMMqE";
    let sig = URL_SAFE_NO_PAD.decode(sig).unwrap();
    let ret = process_text_verify("hello".as_bytes(), KEY, &sig, format).unwrap();
    assert!(ret);
}

#[test]
fn ed25519_known_answer() {
    let sig = process_text_sign(&[], &SK, TextSignFormat::Ed25519).unwrap();
    assert_eq!(sig, EMPTY_SIGNATURE.to_vec());
    let ret = process_text_verify(&[], &PK, &EMPTY_SIGNATURE, TextSignFormat::Ed25519);
    assert_eq!(ret, Ok(true));
}

#[test]
fn ed25519_scenario_hello_and_hellp() {
    let format = TextSignFormat::Ed25519;
    let public = Ed25519Signer::new(&SK).public_key();
    assert_eq!(public, PK);
    let sig = process_text_sign("hello".as_bytes(), &SK, format).unwrap();
    assert_eq!(sig.len(), 64);
    assert_eq!(process_text_verify("hello".as_bytes(), &public, &sig, format), Ok(true));
    assert_eq!(process_text_verify("hellp".as_bytes(), &public, &sig, format), Ok(false));
}

#[test]
fn blake3_tampering_gives_false() {
    let format = TextSignFormat::Blake3;
    let sig = process_text_sign("hello".as_bytes(), KEY, format).unwrap();
    assert_eq!(process_text_verify("hellp".as_bytes(), KEY, &sig, format), Ok(false));
    assert_eq!(process_text_verify("hello!".as_bytes(), KEY, &sig, format), Ok(false));
    let other_key = [7u8; 32];
    assert_eq!(process_text_verify("hello".as_bytes(), &other_key, &sig, format), Ok(false));
    let mut flipped = sig.clone();
    flipped[31] ^= 1;
    assert_eq!(process_text_verify("hello".as_bytes(), KEY, &flipped, format), Ok(false));
}

#[test]
fn ed25519_tampering_gives_false() {
    let format = TextSignFormat::Ed25519;
    let sig = process_text_sign("hello".as_bytes(), &SK, format).unwrap();
    let other_public = Ed25519Signer::new(&[7u8; 32]).public_key();
    assert_eq!(process_text_verify("hello".as_bytes(), &other_public, &sig, format), Ok(false));
    let mut flipped = sig.clone();
    flipped[0] ^= 1;
    assert_eq!(process_text_verify("hello".as_bytes(), &PK, &flipped, format), Ok(false));
    let mut malformed = sig.clone();
    malformed[63] = 0xff;
    assert_eq!(process_text_verify("hello".as_bytes(), &PK, &malformed, format), Ok(false));
}

#[test]
fn short_key_is_rejected() {
    let short = [1u8; 31];
    for format in [TextSignFormat::Blake3, TextSignFormat::Ed25519] {
        assert_eq!(process_text_sign(b"hello", &short, format), Err(TextError::InvalidKeyLength));
        assert_eq!(process_text_sign(b"", &[], format), Err(TextError::InvalidKeyLength));
        assert_eq!(
            process_text_verify(b"hello", &short, &[0u8; 64], format),
            Err(TextError::InvalidKeyLength)
        );
        assert_eq!(
            process_text_verify(b"hello", &short, &[], format),
            Err(TextError::InvalidKeyLength)
        );
    }
    assert!(matches!(Blake3::try_new(&short), Err(TextError::InvalidKeyLength)));
    assert!(matches!(Ed25519Signer::try_new(&short), Err(TextError::InvalidKeyLength)));
    assert!(matches!(Ed25519Verifier::try_new(&short), Err(TextError::InvalidKeyLength)));
}

#[test]
fn short_signature_is_rejected() {
    assert_eq!(
        process_text_verify(b"hello", KEY, &[0u8; 31], TextSignFormat::Blake3),
        Err(TextError::InvalidSignatureLength)
    );
    assert_eq!(
        process_text_verify(b"hello", KEY, &[], TextSignFormat::Blake3),
        Err(TextError::InvalidSignatureLength)
    );
    assert_eq!(
        process_text_verify(b"hello", &PK, &[0u8; 63], TextSignFormat::Ed25519),
        Err(TextError::InvalidSignatureLength)
    );
    assert_eq!(
        process_text_verify(b"hello", &no_public_key(), &[0u8; 63], TextSignFormat::Ed25519),
        Err(TextError::InvalidSignatureLength)
    );
    assert_eq!(
        Blake3::new([0u8; 32]).verify(b"hello", &[0u8; 31]),
        Err(TextError::InvalidSignatureLength)
    );
    let verifier = Ed25519Verifier::try_new(&PK).unwrap();
    assert_eq!(verifier.verify(b"hello", &[0u8; 63]), Err(TextError::InvalidSignatureLength));
}

#[test]
fn signature_lengths() {
    assert_eq!(signature_length(TextSignFormat::Blake3), 32);
    assert_eq!(signature_length(TextSignFormat::Ed25519), 64);
}

#[test]
fn public_key_that_is_none_is_rejected() {
    assert!(matches!(
        Ed25519Verifier::try_new(&no_public_key()),
        Err(TextError::InvalidKeyEncoding)
    ));
    assert_eq!(
        process_text_verify(b"hello", &no_public_key(), &[0u8; 64], TextSignFormat::Ed25519),
        Ok(false)
    );
    assert!(Ed25519Verifier::try_new(&PK).is_ok());
}

#[test]
fn verification_under_a_key_that_is_none_gives_false() {
    let format = TextSignFormat::Ed25519;
    let sig = process_text_sign(b"hello", &SK, format).unwrap();
    assert_eq!(process_text_verify(b"hello", &no_public_key(), &sig, format), Ok(false));
    assert_eq!(process_text_verify(b"", &no_public_key(), &EMPTY_SIGNATURE, format), Ok(false));
    let mut long_key = no_public_key().to_vec();
    long_key.push(b'\n');
    assert_eq!(process_text_verify(b"hello", &long_key, &sig, format), Ok(false));
    assert_eq!(
        process_text_verify(b"hello", &no_public_key()[..31], &sig, format),
        Err(TextError::InvalidKeyLength)
    );
}

#[test]
fn key_bytes_beyond_the_first_32_are_ignored() {
    let mut long_key = KEY.to_vec();
    long_key.push(b'\n');
    let format = TextSignFormat::Blake3;
    let sig = process_text_sign(b"hello", &long_key, format).unwrap();
    assert_eq!(URL_SAFE_NO_PAD.encode(&sig), HELLO_DIGEST);
    assert_eq!(process_text_verify(b"hello", &long_key, &sig, format), Ok(true));

    let mut long_seed = SK.to_vec();
    long_seed.extend_from_slice(b"\r\n");
    let mut long_public = PK.to_vec();
    long_public.push(0);
    let format = TextSignFormat::Ed25519;
    let sig = process_text_sign(b"", &long_seed, format).unwrap();
    assert_eq!(sig, EMPTY_SIGNATURE.to_vec());
    assert_eq!(process_text_verify(b"", &long_public, &sig, format), Ok(true));
}

#[test]
fn signature_bytes_beyond_the_scheme_s_length() {
    let mut long_digest = URL_SAFE_NO_PAD.decode(HELLO_DIGEST).unwrap();
    long_digest.push(0);
    assert_eq!(
        process_text_verify(b"hello", KEY, &long_digest, TextSignFormat::Blake3),
        Ok(false)
    );
    let mut long_signature = EMPTY_SIGNATURE.to_vec();
    long_signature.push(0);
    assert_eq!(
        process_text_verify(b"", &PK, &long_signature, TextSignFormat::Ed25519),
        Ok(true)
    );
}

#[test]
fn signing_twice_gives_the_same_bytes() {
    let first = process_text_sign(b"hello", KEY, TextSignFormat::Blake3).unwrap();
    let second = process_text_sign(b"hello", KEY, TextSignFormat::Blake3).unwrap();
    assert_eq!(first, second);
    let first = process_text_sign(b"hello", &SK, TextSignFormat::Ed25519).unwrap();
    let second = process_text_sign(b"hello", &SK, TextSignFormat::Ed25519).unwrap();
    assert_eq!(process_text_verify(b"hello", &PK, &first, TextSignFormat::Ed25519), Ok(true));
    assert_eq!(process_text_verify(b"hello", &PK, &second, TextSignFormat::Ed25519), Ok(true));
}

#[test]
fn signers_and_verifiers_by_themselves() {
    let mut key = [0u8; 32];
    key.copy_from_slice(KEY);
    let blake3 = Blake3::new(key);
    let sig = blake3.sign(b"hello").unwrap();
    assert_eq!(URL_SAFE_NO_PAD.encode(&sig), HELLO_DIGEST);
    assert_eq!(blake3.verify(b"hello", &sig), Ok(true));
    assert_eq!(blake3.verify(b"hellp", &sig), Ok(false));
    assert_eq!(Blake3::try_new(KEY).unwrap().sign(b"hello").unwrap(), sig);

    let signer = Ed25519Signer::try_new(&SK).unwrap();
    let sig = signer.sign(b"").unwrap();
    assert_eq!(sig, EMPTY_SIGNATURE.to_vec());
    assert_eq!(signer.public_key(), PK);
    let verifier = Ed25519Verifier::try_new(&PK).unwrap();
    assert_eq!(verifier.verify(b"", &sig), Ok(true));
    assert_eq!(verifier.verify(b"x", &sig), Ok(false));
}

#[test]
fn generate_from_seed_blake3() {
    let seed = [9u8; 32];
    let blobs = generate_from_seed(TextSignFormat::Blake3, seed);
    assert_eq!(blobs, vec![KeyBlob { name: "blake3.txt", bytes: seed.to_vec() }]);
    assert_eq!(Blake3::generate(seed), blobs);
}

#[test]
fn generate_from_seed_ed25519() {
    let blobs = generate_from_seed(TextSignFormat::Ed25519, SK);
    assert_eq!(
        blobs,
        vec![
            KeyBlob { name: "ed25519.sk", bytes: SK.to_vec() },
            KeyBlob { name: "ed25519.pk", bytes: PK.to_vec() },
        ]
    );
    assert_eq!(Ed25519Signer::generate(SK), blobs);
}

#[test]
fn generated_blake3_key_signs_and_verifies() {
    let blobs = process_text_key_generate(TextSignFormat::Blake3).unwrap();
    assert_eq!(blobs.len(), 1);
    assert_eq!(blobs[0].name, "blake3.txt");
    assert_eq!(blobs[0].bytes.len(), 32);
    let format = TextSignFormat::Blake3;
    let sig = process_text_sign(b"any content", &blobs[0].bytes, format).unwrap();
    assert_eq!(process_text_verify(b"any content", &blobs[0].bytes, &sig, format), Ok(true));
}

#[test]
fn generated_ed25519_pair_belongs_together() {
    let blobs = process_text_key_generate(TextSignFormat::Ed25519).unwrap();
    assert_eq!(blobs.len(), 2);
    assert_eq!(blobs[0].name, "ed25519.sk");
    assert_eq!(blobs[1].name, "ed25519.pk");
    assert_eq!(blobs[0].bytes.len(), 32);
    assert_eq!(blobs[1].bytes.len(), 32);
    let format = TextSignFormat::Ed25519;
    for content in [&b""[..], &b"hello"[..], &[0u8; 1000][..]] {
        let sig = process_text_sign(content, &blobs[0].bytes, format).unwrap();
        assert_eq!(process_text_verify(content, &blobs[1].bytes, &sig, format), Ok(true));
    }
}

#[test]
fn generated_keys_differ() {
    let first = process_text_key_generate(TextSignFormat::Blake3).unwrap();
    let second = process_text_key_generate(TextSignFormat::Blake3).unwrap();
    assert_ne!(first, second);
}
