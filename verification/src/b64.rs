use vstd::prelude::*;
use base64::Engine;
use crate::ProcessError;
use crate::format::Base64Format;

verus! {

/// The base64 text, in the standard alphabet with padding, of a byte
/// sequence.
pub uninterp spec fn b64_standard_of(b: Seq<u8>) -> Seq<char>;

/// What the standard-alphabet base64 decoder returns for a piece of text:
/// the decoded bytes, or nothing when the text is not valid base64.
pub uninterp spec fn b64_standard_decode_of(s: Seq<char>) -> Option<Seq<u8>>;

/// The base64 text, in the URL-safe alphabet without padding, of a byte
/// sequence.
pub uninterp spec fn b64_urlsafe_of(b: Seq<u8>) -> Seq<char>;

/// What the URL-safe-alphabet base64 decoder returns for a piece of text.
pub uninterp spec fn b64_urlsafe_decode_of(s: Seq<char>) -> Option<Seq<u8>>;

/// The text with leading and trailing whitespace removed.
pub uninterp spec fn trim_of(s: Seq<char>) -> Seq<char>;

/// Relies on str::trim: the result depends on the characters alone.
#[verifier::external_body]
fn trim_str(s: &str) -> (r: &str)
    ensures
        r@ == trim_of(s@),
{
    s.trim()
}

/// Relies on base64's Engine::encode with the standard engine: the encoding
/// is a function of the bytes alone, and decoding it with the same engine
/// gives the bytes back.
#[verifier::external_body]
fn b64_encode_standard(b: &[u8]) -> (r: String)
    ensures
        r@ == b64_standard_of(b@),
        b64_standard_decode_of(r@) == Some(b@),
{
    base64::engine::general_purpose::STANDARD.encode(b)
}

/// Relies on base64's Engine::encode with the URL-safe no-padding engine:
/// the encoding is a function of the bytes alone, and decoding it with the
/// same engine gives the bytes back.
#[verifier::external_body]
fn b64_encode_urlsafe(b: &[u8]) -> (r: String)
    ensures
        r@ == b64_urlsafe_of(b@),
        b64_urlsafe_decode_of(r@) == Some(b@),
{
    base64::engine::general_purpose::URL_SAFE_NO_PAD.encode(b)
}

/// Relies on base64's Engine::decode with the standard engine: the outcome
/// is a function of the text alone.
#[verifier::external_body]
fn b64_decode_standard(s: &str) -> (r: Option<Vec<u8>>)
    ensures
        r matches Some(v) ==> b64_standard_decode_of(s@) == Some(v@),
        r is None ==> b64_standard_decode_of(s@) is None,
{
    match base64::engine::general_purpose::STANDARD.decode(s) {
        Ok(v) => Some(v),
        Err(_) => None,
    }
}

/// Relies on base64's Engine::decode with the URL-safe no-padding engine:
/// the outcome is a function of the text alone.
#[verifier::external_body]
fn b64_decode_urlsafe(s: &str) -> (r: Option<Vec<u8>>)
    ensures
        r matches Some(v) ==> b64_urlsafe_decode_of(s@) == Some(v@),
        r is None ==> b64_urlsafe_decode_of(s@) is None,
{
    match base64::engine::general_purpose::URL_SAFE_NO_PAD.decode(s) {
        Ok(v) => Some(v),
        Err(_) => None,
    }
}

/// Relies on String::from_utf8: it succeeds exactly on valid UTF-8, and the
/// returned string's characters encode back to the input bytes.
#[verifier::external_body]
fn string_from_utf8(v: Vec<u8>) -> (r: Option<String>)
    ensures
        r matches Some(s) ==> vstd::utf8::encode_utf8(s@) == v@,
        r is Some <==> vstd::utf8::valid_utf8(v@),
{
    String::from_utf8(v).ok()
}

/// The base64 text that `process_encode` produces for a piece of input text.
pub open spec fn encoded_text(s: Seq<char>, format: Base64Format) -> Seq<char> {
    match format {
        Base64Format::Standard => b64_standard_of(vstd::utf8::encode_utf8(trim_of(s))),
        Base64Format::UrlSafe => b64_urlsafe_of(vstd::utf8::encode_utf8(trim_of(s))),
    }
}

/// The bytes that `process_decode` recovers from a piece of input text, or
/// nothing when the trimmed text is not valid base64 in the selected
/// alphabet.
pub open spec fn decoded_bytes(s: Seq<char>, format: Base64Format) -> Option<Seq<u8>> {
    match format {
        Base64Format::Standard => b64_standard_decode_of(trim_of(s)),
        Base64Format::UrlSafe => b64_urlsafe_decode_of(trim_of(s)),
    }
}

/// Encodes the trimmed input text as base64 in the selected alphabet. The
/// result decodes back to the trimmed input's bytes with the same alphabet.
pub fn process_encode(input: &str, format: Base64Format) -> (r: Result<String, ProcessError>)
    ensures
        r is Ok,
        r matches Ok(e) ==> e@ == encoded_text(input@, format),
        r matches Ok(e) ==> match format {
            Base64Format::Standard => b64_standard_decode_of(e@) == Some(
                vstd::utf8::encode_utf8(trim_of(input@)),
            ),
            Base64Format::UrlSafe => b64_urlsafe_decode_of(e@) == Some(
                vstd::utf8::encode_utf8(trim_of(input@)),
            ),
        },
{
    let trimmed = trim_str(input);
    let bytes = trimmed.as_bytes();
    match format {
        Base64Format::Standard => Ok(b64_encode_standard(bytes)),
        Base64Format::UrlSafe => Ok(b64_encode_urlsafe(bytes)),
    }
}

/// Decodes the trimmed input text from base64 in the selected alphabet and
/// returns the decoded bytes as text. Text that is not valid base64 is a
/// decode failure; decoded bytes that are not valid UTF-8 are a UTF-8
/// failure.
pub fn process_decode(input: &str, format: Base64Format) -> (r: Result<String, ProcessError>)
    ensures
        decoded_bytes(input@, format) is None ==> r == Err::<String, ProcessError>(
            ProcessError::Base64Decode,
        ),
        decoded_bytes(input@, format) matches Some(b) ==> (vstd::utf8::valid_utf8(b) ==> (
        r matches Ok(s) && vstd::utf8::encode_utf8(s@) == b)),
        decoded_bytes(input@, format) matches Some(b) ==> (!vstd::utf8::valid_utf8(b) ==> r
            == Err::<String, ProcessError>(ProcessError::Utf8Decode)),
{
    let trimmed = trim_str(input);
    let decoded = match format {
        Base64Format::Standard => b64_decode_standard(trimmed),
        Base64Format::UrlSafe => b64_decode_urlsafe(trimmed),
    };
    let bytes = match decoded {
        Some(b) => b,
        None => {
            return Err(ProcessError::Base64Decode);
        },
    };
    match string_from_utf8(bytes) {
        Some(s) => Ok(s),
        None => Err(ProcessError::Utf8Decode),
    }
}

} // verus!
