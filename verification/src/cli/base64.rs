//! The base64 alphabet as the command line names it.
use crate::bytes::str_equal;
use vstd::prelude::*;

verus! {

/// The two ways in which bytes are written as base64 text.
#[derive(Debug, Clone, Copy, PartialEq, Eq, Structural)]
pub enum Base64Format {
    /// The standard alphabet, padded with `=` to a multiple of four.
    Standard,
    /// The alphabet that is safe in a URL, without padding.
    UrlSafe,
}

/// A token that names no base64 format.
#[derive(Debug, Clone, Copy, PartialEq, Eq, Structural)]
pub struct InvalidBase64Format;

/// The token that selects `format`.
pub open spec fn base64_format_token(format: Base64Format) -> Seq<char> {
    match format {
        Base64Format::Standard => "standard"@,
        Base64Format::UrlSafe => "urlsafe"@,
    }
}

/// The format that `token` selects.
pub open spec fn base64_format_of(token: Seq<char>) -> Result<Base64Format, InvalidBase64Format> {
    if token == "standard"@ {
        Ok(Base64Format::Standard)
    } else if token == "urlsafe"@ {
        Ok(Base64Format::UrlSafe)
    } else {
        Err(InvalidBase64Format)
    }
}

/// Reads a format token.
pub fn parse_base64_format(format: &str) -> (outcome: Result<Base64Format, InvalidBase64Format>)
    ensures
        outcome == base64_format_of(format@),
{
    if str_equal(format, "standard") {
        Ok(Base64Format::Standard)
    } else if str_equal(format, "urlsafe") {
        Ok(Base64Format::UrlSafe)
    } else {
        Err(InvalidBase64Format)
    }
}

impl Base64Format {
    /// The token that selects this format.
    pub fn token(self) -> (token: &'static str)
        ensures
            token@ == base64_format_token(self),
    {
        match self {
            Base64Format::Standard => "standard",
            Base64Format::UrlSafe => "urlsafe",
        }
    }
}

impl InvalidBase64Format {
    /// The complaint in words.
    pub fn message(&self) -> (text: &'static str)
        ensures
            text@ == "Invalid base64 format"@,
    {
        "Invalid base64 format"
    }
}

impl std::str::FromStr for Base64Format {
    type Err = InvalidBase64Format;

    fn from_str(s: &str) -> (outcome: Result<Self, Self::Err>)
        ensures
            outcome == base64_format_of(s@),
    {
        parse_base64_format(s)
    }
}

/// A format's token selects that format again.
pub proof fn base64_format_token_round_trip(format: Base64Format)
    ensures
        base64_format_of(base64_format_token(format)) == Ok::<Base64Format, InvalidBase64Format>(
            format,
        ),
{
    reveal_strlit("standard");
    reveal_strlit("urlsafe");
    assert("standard"@[0] != "urlsafe"@[0]);
}

} // verus!
