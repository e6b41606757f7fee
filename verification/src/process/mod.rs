pub mod b64;
pub mod csv_convert;
pub mod http_serve;
pub mod primitives;
pub mod text;
pub mod text_laws;

pub use self::text::{
    process_text_key_generate, process_text_sign, process_text_verify, Blake3, Ed25519Signer,
    Ed25519Verifier, KeyBlob, TextSigner, TextVerifier,
};
