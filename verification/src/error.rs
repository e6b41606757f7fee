use vstd::prelude::*;

verus! {

/// Why a signing, verification or key-generation request was turned down.
///
/// A signature that is well formed but does not match is not an error: the
/// verification functions answer `Ok(false)` for it.
#[derive(Debug, Clone, Copy, PartialEq, Eq, Structural)]
pub enum TextError {
    /// The content could not be read to its end.
    IoError,
    /// The key buffer holds fewer than 32 bytes.
    InvalidKeyLength,
    /// The key bytes do not encode a key of the asymmetric scheme.
    InvalidKeyEncoding,
    /// The signature buffer is shorter than the scheme's signature.
    InvalidSignatureLength,
    /// The operating system's random source failed.
    RngUnavailable,
    /// The format token names no known scheme.
    UnsupportedFormat,
}

/// What `error` says in words.
pub open spec fn text_error_message(error: TextError) -> Seq<char> {
    match error {
        TextError::IoError => "the content could not be read"@,
        TextError::InvalidKeyLength => "the key is shorter than 32 bytes"@,
        TextError::InvalidKeyEncoding => "the key bytes are no key of the scheme"@,
        TextError::InvalidSignatureLength => "the signature is shorter than the scheme's"@,
        TextError::RngUnavailable => "the random source failed"@,
        TextError::UnsupportedFormat => "UnSupported format."@,
    }
}

impl TextError {
    /// The error in words, for the caller to show.
    pub fn message(&self) -> (text: &'static str)
        ensures
            text@ == text_error_message(*self),
    {
        match self {
            TextError::IoError => "the content could not be read",
            TextError::InvalidKeyLength => "the key is shorter than 32 bytes",
            TextError::InvalidKeyEncoding => "the key bytes are no key of the scheme",
            TextError::InvalidSignatureLength => "the signature is shorter than the scheme's",
            TextError::RngUnavailable => "the random source failed",
            TextError::UnsupportedFormat => "UnSupported format.",
        }
    }
}

} // verus!
