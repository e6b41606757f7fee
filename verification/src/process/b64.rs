//! Writing bytes as base64 text and reading them back.
//!
//! The alphabets are those of the `base64` crate. What its engines return is
//! named by the spec functions without a body below and taken on trust; the
//! steps around the calls are proved.
use crate::cli::Base64Format;
use base64::engine::general_purpose::{STANDARD, URL_SAFE_NO_PAD};
use base64::Engine;
use vstd::prelude::*;
use vstd::string::StrSliceExecFns;
use vstd::utf8::{decode_utf8, valid_utf8};

verus! {

/// What the `STANDARD` engine writes for `data`.
pub uninterp spec fn base64_standard_text(data: Seq<u8>) -> Seq<char>;

/// What the `URL_SAFE_NO_PAD` engine writes for `data`.
pub uninterp spec fn base64_url_safe_text(data: Seq<u8>) -> Seq<char>;

/// The bytes that the `STANDARD` engine reads from `text`, if it takes it.
pub uninterp spec fn base64_standard_bytes(text: Seq<char>) -> Option<Seq<u8>>;

/// The bytes that the `URL_SAFE_NO_PAD` engine reads from `text`, if it takes
/// it.
pub uninterp spec fn base64_url_safe_bytes(text: Seq<char>) -> Option<Seq<u8>>;

/// Whether `c` is whitespace: one of the 25 code points that have the
/// Unicode property White_Space, the line feed among them.
pub open spec fn char_is_whitespace(c: char) -> bool {
    let code = c as u32;
    ||| 0x0009 <= code <= 0x000d
    ||| code == 0x0020
    ||| code == 0x0085
    ||| code == 0x00a0
    ||| code == 0x1680
    ||| 0x2000 <= code <= 0x200a
    ||| code == 0x2028
    ||| code == 0x2029
    ||| code == 0x202f
    ||| code == 0x205f
    ||| code == 0x3000
}

/// The error with which an engine turns text down.
#[verifier::external_type_specification]
#[verifier::external_body]
pub struct ExDecodeError(base64::DecodeError);

/// The error with which std turns down bytes that are not UTF-8.
#[verifier::external_type_specification]
#[verifier::external_body]
pub struct ExFromUtf8Error(std::string::FromUtf8Error);

/// Why bytes were not encoded, or text not decoded.
#[derive(Debug, Clone, Copy, PartialEq, Eq, Structural)]
pub enum Base64Error {
    /// The text that would be written is longer than a buffer can be.
    InputTooLong,
    /// The text is not base64 of the chosen format.
    InvalidEncoding,
    /// The decoded bytes are not UTF-8 text.
    InvalidUtf8,
}

/// Whether the base64 text of `len` bytes fits a buffer: four characters for
/// every three bytes, and up to four more.
pub open spec fn encodable_len(len: nat) -> bool {
    len / 3 * 4 + 4 <= usize::MAX
}

/// The base64 text of `data` in `format`.
pub open spec fn base64_text(data: Seq<u8>, format: Base64Format) -> Seq<char> {
    match format {
        Base64Format::Standard => base64_standard_text(data),
        Base64Format::UrlSafe => base64_url_safe_text(data),
    }
}

/// The bytes that `text` stands for in `format`, if it is base64 of that
/// format.
pub open spec fn base64_bytes(text: Seq<char>, format: Base64Format) -> Option<Seq<u8>> {
    match format {
        Base64Format::Standard => base64_standard_bytes(text),
        Base64Format::UrlSafe => base64_url_safe_bytes(text),
    }
}

/// `text` without the whitespace at its start.
pub open spec fn trimmed_start(text: Seq<char>) -> Seq<char>
    decreases text.len(),
{
    if text.len() > 0 && char_is_whitespace(text.first()) {
        trimmed_start(text.drop_first())
    } else {
        text
    }
}

/// `text` without the whitespace at its end.
pub open spec fn trimmed_end(text: Seq<char>) -> Seq<char>
    decreases text.len(),
{
    if text.len() > 0 && char_is_whitespace(text.last()) {
        trimmed_end(text.drop_last())
    } else {
        text
    }
}

/// `text` without the whitespace at either end.
pub open spec fn trimmed(text: Seq<char>) -> Seq<char> {
    trimmed_end(trimmed_start(text))
}

/// What encoding `data` in `format` gives.
pub open spec fn encode_spec(data: Seq<u8>, format: Base64Format) -> Result<Seq<char>, Base64Error> {
    if encodable_len(data.len()) {
        Ok(base64_text(data, format))
    } else {
        Err(Base64Error::InputTooLong)
    }
}

/// The text that `bytes` are, if they are UTF-8.
pub open spec fn utf8_text_spec(bytes: Seq<u8>) -> Result<Seq<char>, Base64Error> {
    if valid_utf8(bytes) {
        Ok(decode_utf8(bytes))
    } else {
        Err(Base64Error::InvalidUtf8)
    }
}

/// What decoding `text` in `format` gives: the text that the bytes behind the
/// trimmed input are.
pub open spec fn decode_spec(text: Seq<char>, format: Base64Format) -> Result<
    Seq<char>,
    Base64Error,
> {
    match base64_bytes(trimmed(text), format) {
        Some(bytes) => utf8_text_spec(bytes),
        None => Err(Base64Error::InvalidEncoding),
    }
}

/// An outcome with its text replaced by the text's characters.
pub open spec fn text_outcome(outcome: Result<String, Base64Error>) -> Result<
    Seq<char>,
    Base64Error,
> {
    match outcome {
        Ok(text) => Ok(text@),
        Err(error) => Err(error),
    }
}

/// Calls `Engine::encode` on `STANDARD`.
///
/// Trusted: the text depends on the bytes alone. The call panics where the
/// text's length overflows, which `requires` leaves out.
#[verifier::external_body]
fn encode_standard(data: &[u8]) -> (text: String)
    requires
        encodable_len(data@.len()),
    ensures
        text@ == base64_standard_text(data@),
{
    STANDARD.encode(data)
}

/// Calls `Engine::encode` on `URL_SAFE_NO_PAD`.
///
/// Trusted: the text depends on the bytes alone. The call panics where the
/// text's length overflows, which `requires` leaves out.
#[verifier::external_body]
fn encode_url_safe(data: &[u8]) -> (text: String)
    requires
        encodable_len(data@.len()),
    ensures
        text@ == base64_url_safe_text(data@),
{
    URL_SAFE_NO_PAD.encode(data)
}

/// Calls `Engine::decode` on `STANDARD`.
///
/// Trusted: whether the text is taken, and the bytes read from it, depend on
/// the text alone.
#[verifier::external_body]
fn decode_standard(text: &str) -> (outcome: Result<Vec<u8>, base64::DecodeError>)
    ensures
        match outcome {
            Ok(bytes) => base64_standard_bytes(text@) == Some(bytes@),
            Err(_) => base64_standard_bytes(text@) is None,
        },
{
    STANDARD.decode(text)
}

/// Calls `Engine::decode` on `URL_SAFE_NO_PAD`.
///
/// Trusted: whether the text is taken, and the bytes read from it, depend on
/// the text alone.
#[verifier::external_body]
fn decode_url_safe(text: &str) -> (outcome: Result<Vec<u8>, base64::DecodeError>)
    ensures
        match outcome {
            Ok(bytes) => base64_url_safe_bytes(text@) == Some(bytes@),
            Err(_) => base64_url_safe_bytes(text@) is None,
        },
{
    URL_SAFE_NO_PAD.decode(text)
}

/// Calls `char::is_whitespace`.
///
/// Trusted, from std's documentation: the call tells whether the character
/// has the Unicode property White_Space, whose code points the spec function
/// lists.
#[verifier::external_body]
fn is_whitespace(c: char) -> (white: bool)
    ensures
        white == char_is_whitespace(c),
{
    c.is_whitespace()
}

/// Calls `String::from_utf8`.
///
/// Trusted, from std's documentation: the call succeeds on the bytes that
/// are UTF-8 and on no others, and the string it returns holds the
/// characters that the bytes encode.
#[verifier::external_body]
fn string_from_utf8(bytes: Vec<u8>) -> (outcome: Result<String, std::string::FromUtf8Error>)
    ensures
        match outcome {
            Ok(text) => valid_utf8(bytes@) && text@ == decode_utf8(bytes@),
            Err(_) => !valid_utf8(bytes@),
        },
{
    String::from_utf8(bytes)
}

/// Removing whitespace from the start goes on behind every leading
/// whitespace character.
proof fn lemma_trimmed_start_skips(text: Seq<char>, n: int)
    requires
        0 <= n <= text.len(),
        forall|j: int| 0 <= j < n ==> char_is_whitespace(#[trigger] text[j]),
    ensures
        trimmed_start(text) == trimmed_start(text.skip(n)),
    decreases n,
{
    if n == 0 {
        assert(text.skip(0) =~= text);
    } else {
        assert(text.drop_first().skip(n - 1) =~= text.skip(n));
        lemma_trimmed_start_skips(text.drop_first(), n - 1);
    }
}

/// Removing whitespace from the end goes on before every trailing whitespace
/// character.
proof fn lemma_trimmed_end_takes(text: Seq<char>, n: int)
    requires
        0 <= n <= text.len(),
        forall|j: int| n <= j < text.len() ==> char_is_whitespace(#[trigger] text[j]),
    ensures
        trimmed_end(text) == trimmed_end(text.take(n)),
    decreases text.len() - n,
{
    if n == text.len() {
        assert(text.take(n) =~= text);
    } else {
        assert(text.drop_last().take(n) =~= text.take(n));
        lemma_trimmed_end_takes(text.drop_last(), n);
    }
}

/// Whitespace behind a text is left aside: with one more whitespace
/// character at its end, such as a line feed, a text is trimmed to the same.
pub proof fn trailing_whitespace_is_left_aside(text: Seq<char>, c: char)
    requires
        char_is_whitespace(c),
    ensures
        trimmed(text.push(c)) == trimmed(text),
    decreases text.len(),
{
    let longer = text.push(c);
    if text.len() == 0 {
        assert(longer.drop_first() =~= text);
    } else if char_is_whitespace(text.first()) {
        assert(longer.drop_first() =~= text.drop_first().push(c));
        trailing_whitespace_is_left_aside(text.drop_first(), c);
    } else {
        assert(longer.drop_last() =~= text);
    }
}

/// `text` without the whitespace at either end, as `str::trim` gives it.
pub fn trim(text: &str) -> (inner: &str)
    ensures
        inner@ == trimmed(text@),
{
    let len = text.unicode_len();
    let mut start: usize = 0;
    while start < len && is_whitespace(text.get_char(start))
        invariant
            start <= len,
            len == text@.len(),
            forall|j: int| 0 <= j < start ==> char_is_whitespace(#[trigger] text@[j]),
        decreases len - start,
    {
        start += 1;
    }
    let mut end: usize = len;
    while end > start && is_whitespace(text.get_char(end - 1))
        invariant
            start <= end <= len,
            len == text@.len(),
            forall|j: int| end <= j < len ==> char_is_whitespace(#[trigger] text@[j]),
        decreases end,
    {
        end -= 1;
    }
    proof {
        let rest = text@.skip(start as int);
        lemma_trimmed_start_skips(text@, start as int);
        assert(trimmed_start(text@) == rest);
        assert forall|j: int| end - start <= j < rest.len() implies char_is_whitespace(
            #[trigger] rest[j],
        ) by {
            assert(rest[j] == text@[j + start]);
        }
        lemma_trimmed_end_takes(rest, end - start);
        let kept = rest.take(end - start);
        assert(trimmed_end(kept) == kept);
        assert(kept =~= text@.subrange(start as int, end as int));
    }
    text.substring_char(start, end)
}

/// Writes `content` as base64 text in `format`.
///
/// Fails only on content so long that its text would not fit a buffer.
pub fn process_encode(content: &[u8], format: Base64Format) -> (outcome: Result<
    String,
    Base64Error,
>)
    ensures
        text_outcome(outcome) == encode_spec(content@, format),
{
    if content.len() / 3 > (usize::MAX - 4) / 4 {
        return Err(Base64Error::InputTooLong);
    }
    let encode = match format {
        Base64Format::Standard => encode_standard(content),
        Base64Format::UrlSafe => encode_url_safe(content),
    };
    Ok(encode)
}

/// The text that `bytes` are: the characters that they encode as UTF-8.
pub fn text_of_bytes(bytes: Vec<u8>) -> (outcome: Result<String, Base64Error>)
    ensures
        text_outcome(outcome) == utf8_text_spec(bytes@),
{
    match string_from_utf8(bytes) {
        Ok(text) => Ok(text),
        Err(_) => Err(Base64Error::InvalidUtf8),
    }
}

/// What reading the bytes behind `text` in `format` gives.
pub open spec fn decode_bytes_spec(text: Seq<char>, format: Base64Format) -> Result<
    Seq<u8>,
    Base64Error,
> {
    match base64_bytes(text, format) {
        Some(bytes) => Ok(bytes),
        None => Err(Base64Error::InvalidEncoding),
    }
}

/// An outcome with its bytes replaced by their sequence.
pub open spec fn bytes_outcome(outcome: Result<Vec<u8>, Base64Error>) -> Result<
    Seq<u8>,
    Base64Error,
> {
    match outcome {
        Ok(bytes) => Ok(bytes@),
        Err(error) => Err(error),
    }
}

/// Reads the bytes behind base64 text in `format`. The text is taken as it
/// is: whitespace in it is no base64.
pub fn decode_bytes(text: &str, format: Base64Format) -> (outcome: Result<Vec<u8>, Base64Error>)
    ensures
        bytes_outcome(outcome) == decode_bytes_spec(text@, format),
{
    let decoded = match format {
        Base64Format::Standard => decode_standard(text),
        Base64Format::UrlSafe => decode_url_safe(text),
    };
    match decoded {
        Ok(bytes) => Ok(bytes),
        Err(_) => Err(Base64Error::InvalidEncoding),
    }
}

/// Reads base64 text in `format` and hands out the text that was encoded.
///
/// Whitespace at either end of `text` is left aside. Fails on text that is
/// not base64 of the format, and on bytes that are not UTF-8.
pub fn process_decode(text: &str, format: Base64Format) -> (outcome: Result<String, Base64Error>)
    ensures
        text_outcome(outcome) == decode_spec(text@, format),
{
    match decode_bytes(trim(text), format) {
        Ok(bytes) => text_of_bytes(bytes),
        Err(error) => Err(error),
    }
}

} // verus!
