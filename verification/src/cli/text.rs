//! The signing scheme as the command line names it.
use crate::bytes::str_equal;
use crate::error::TextError;
use vstd::prelude::*;

verus! {

/// The two signing schemes. The caller chooses one for each request; it is
/// never guessed from a key or a signature.
#[derive(Debug, Clone, Copy, PartialEq, Eq, Structural)]
pub enum TextSignFormat {
    /// A keyed hash: one secret 32-byte key signs and verifies.
    Blake3,
    /// A digital signature: a 32-byte seed signs, its public key verifies.
    Ed25519,
}

/// The token that selects `format`.
pub open spec fn text_sign_format_token(format: TextSignFormat) -> Seq<char> {
    match format {
        TextSignFormat::Blake3 => "blake3-equivalent"@,
        TextSignFormat::Ed25519 => "ed25519-equivalent"@,
    }
}

/// The scheme that `token` selects. Every token but the two known ones is
/// turned down.
pub open spec fn text_sign_format_of(token: Seq<char>) -> Result<TextSignFormat, TextError> {
    if token == "blake3-equivalent"@ {
        Ok(TextSignFormat::Blake3)
    } else if token == "ed25519-equivalent"@ {
        Ok(TextSignFormat::Ed25519)
    } else {
        Err(TextError::UnsupportedFormat)
    }
}

/// Reads a format token.
pub fn parse_text_sign_format(str_format: &str) -> (outcome: Result<TextSignFormat, TextError>)
    ensures
        outcome == text_sign_format_of(str_format@),
{
    if str_equal(str_format, "blake3-equivalent") {
        Ok(TextSignFormat::Blake3)
    } else if str_equal(str_format, "ed25519-equivalent") {
        Ok(TextSignFormat::Ed25519)
    } else {
        Err(TextError::UnsupportedFormat)
    }
}

impl TextSignFormat {
    /// The token that selects this scheme.
    pub fn token(self) -> (token: &'static str)
        ensures
            token@ == text_sign_format_token(self),
    {
        match self {
            TextSignFormat::Blake3 => "blake3-equivalent",
            TextSignFormat::Ed25519 => "ed25519-equivalent",
        }
    }
}

impl std::str::FromStr for TextSignFormat {
    type Err = TextError;

    fn from_str(s: &str) -> (outcome: Result<Self, Self::Err>)
        ensures
            outcome == text_sign_format_of(s@),
    {
        parse_text_sign_format(s)
    }
}

/// A scheme's token selects that scheme again.
pub proof fn text_sign_format_token_round_trip(format: TextSignFormat)
    ensures
        text_sign_format_of(text_sign_format_token(format)) == Ok::<TextSignFormat, TextError>(format),
{
    reveal_strlit("blake3-equivalent");
    reveal_strlit("ed25519-equivalent");
    assert("blake3-equivalent"@[0] != "ed25519-equivalent"@[0]);
}

} // verus!
