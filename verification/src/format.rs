use vstd::prelude::*;
use crate::ProcessError;

verus! {

/// Selects which signing scheme a key, signature or operation belongs to.
/// Its canonical textual form is lowercase and must round-trip through
/// `parse_text_sign_format`.
#[derive(Clone, Copy, Debug, PartialEq, Eq, Structural)]
pub enum TextSignFormat {
    Blake3,
    Ed25519,
}

/// Selects the base64 alphabet used at the encoding boundary.
#[derive(Clone, Copy, Debug, PartialEq, Eq, Structural)]
pub enum Base64Format {
    Standard,
    UrlSafe,
}

/// Selects the serialisation format of the CSV conversion output.
#[derive(Clone, Copy, Debug, PartialEq, Eq, Structural)]
pub enum OutputFormat {
    Json,
    Yaml,
}

/// Relies on str's PartialEq: two string slices compare equal exactly when
/// their character sequences are equal.
#[verifier::external_body]
fn str_eq(a: &str, b: &str) -> (r: bool)
    ensures
        r == (a@ == b@),
{
    a == b
}

pub uninterp spec fn lower_of(s: Seq<char>) -> Seq<char>;

/// Relies on str::to_lowercase: the result depends on the characters alone.
#[verifier::external_body]
fn to_lower(s: &str) -> (r: String)
    ensures
        r@ == lower_of(s@),
{
    s.to_lowercase()
}

/// The canonical text of a scheme tag.
pub open spec fn text_sign_format_text(f: TextSignFormat) -> Seq<char> {
    match f {
        TextSignFormat::Blake3 => "blake3"@,
        TextSignFormat::Ed25519 => "ed25519"@,
    }
}

/// Which scheme tag, if any, a piece of text denotes. The match is
/// case-sensitive and exact.
pub open spec fn text_sign_format_of(s: Seq<char>) -> Option<TextSignFormat> {
    if s == "blake3"@ {
        Some(TextSignFormat::Blake3)
    } else if s == "ed25519"@ {
        Some(TextSignFormat::Ed25519)
    } else {
        None
    }
}

/// Parses a scheme tag; text that names no scheme is a format-parse failure.
pub fn parse_text_sign_format(s: &str) -> (r: Result<TextSignFormat, ProcessError>)
    ensures
        r == match text_sign_format_of(s@) {
            Some(f) => Ok::<TextSignFormat, ProcessError>(f),
            None => Err::<TextSignFormat, ProcessError>(ProcessError::FormatParse),
        },
{
    if str_eq(s, "blake3") {
        Ok(TextSignFormat::Blake3)
    } else if str_eq(s, "ed25519") {
        Ok(TextSignFormat::Ed25519)
    } else {
        Err(ProcessError::FormatParse)
    }
}

impl TextSignFormat {
    /// The canonical lowercase text of this tag.
    pub fn text(&self) -> (r: &'static str)
        ensures
            r@ == text_sign_format_text(*self),
    {
        match self {
            TextSignFormat::Blake3 => "blake3",
            TextSignFormat::Ed25519 => "ed25519",
        }
    }
}

impl core::str::FromStr for TextSignFormat {
    type Err = ProcessError;

    fn from_str(s: &str) -> Result<Self, Self::Err> {
        parse_text_sign_format(s)
    }
}

/// A scheme tag's canonical text parses back to the same tag.
pub proof fn lemma_text_sign_format_round_trip(f: TextSignFormat)
    ensures
        text_sign_format_of(text_sign_format_text(f)) == Some(f),
{
    reveal_strlit("blake3");
    reveal_strlit("ed25519");
    assert("blake3"@.len() == 6);
    assert("ed25519"@.len() == 7);
}

/// Text that parses to a scheme tag is that tag's canonical text.
pub proof fn lemma_text_sign_format_parse_text(s: Seq<char>, f: TextSignFormat)
    requires
        text_sign_format_of(s) == Some(f),
    ensures
        text_sign_format_text(f) == s,
{
}

/// The canonical text of a base64 alphabet tag.
pub open spec fn base64_format_text(f: Base64Format) -> Seq<char> {
    match f {
        Base64Format::Standard => "standard"@,
        Base64Format::UrlSafe => "urlsafe"@,
    }
}

/// Which base64 alphabet tag, if any, a piece of text denotes.
pub open spec fn base64_format_of(s: Seq<char>) -> Option<Base64Format> {
    if s == "standard"@ {
        Some(Base64Format::Standard)
    } else if s == "urlsafe"@ {
        Some(Base64Format::UrlSafe)
    } else {
        None
    }
}

/// Parses a base64 alphabet tag.
pub fn parse_base64_format(s: &str) -> (r: Result<Base64Format, ProcessError>)
    ensures
        r == match base64_format_of(s@) {
            Some(f) => Ok::<Base64Format, ProcessError>(f),
            None => Err::<Base64Format, ProcessError>(ProcessError::FormatParse),
        },
{
    if str_eq(s, "standard") {
        Ok(Base64Format::Standard)
    } else if str_eq(s, "urlsafe") {
        Ok(Base64Format::UrlSafe)
    } else {
        Err(ProcessError::FormatParse)
    }
}

impl Base64Format {
    /// The canonical lowercase text of this tag.
    pub fn text(&self) -> (r: &'static str)
        ensures
            r@ == base64_format_text(*self),
    {
        match self {
            Base64Format::Standard => "standard",
            Base64Format::UrlSafe => "urlsafe",
        }
    }
}

impl core::str::FromStr for Base64Format {
    type Err = ProcessError;

    fn from_str(s: &str) -> Result<Self, Self::Err> {
        parse_base64_format(s)
    }
}

/// A base64 alphabet tag's canonical text parses back to the same tag.
pub proof fn lemma_base64_format_round_trip(f: Base64Format)
    ensures
        base64_format_of(base64_format_text(f)) == Some(f),
{
    reveal_strlit("standard");
    reveal_strlit("urlsafe");
    assert("standard"@.len() == 8);
    assert("urlsafe"@.len() == 7);
}

/// The canonical text of an output format tag.
pub open spec fn output_format_text(f: OutputFormat) -> Seq<char> {
    match f {
        OutputFormat::Json => "json"@,
        OutputFormat::Yaml => "yaml"@,
    }
}

/// Which output format tag, if any, a piece of text denotes. The match is
/// case-insensitive: the text is lowercased first.
pub open spec fn output_format_of(s: Seq<char>) -> Option<OutputFormat> {
    if lower_of(s) == "json"@ {
        Some(OutputFormat::Json)
    } else if lower_of(s) == "yaml"@ {
        Some(OutputFormat::Yaml)
    } else {
        None
    }
}

/// Parses an output format tag, ignoring case.
pub fn parse_format(s: &str) -> (r: Result<OutputFormat, ProcessError>)
    ensures
        r == match output_format_of(s@) {
            Some(f) => Ok::<OutputFormat, ProcessError>(f),
            None => Err::<OutputFormat, ProcessError>(ProcessError::FormatParse),
        },
{
    let lowered = to_lower(s);
    if str_eq(lowered.as_str(), "json") {
        Ok(OutputFormat::Json)
    } else if str_eq(lowered.as_str(), "yaml") {
        Ok(OutputFormat::Yaml)
    } else {
        Err(ProcessError::FormatParse)
    }
}

impl OutputFormat {
    /// The canonical lowercase text of this tag.
    pub fn text(&self) -> (r: &'static str)
        ensures
            r@ == output_format_text(*self),
    {
        match self {
            OutputFormat::Json => "json",
            OutputFormat::Yaml => "yaml",
        }
    }
}

impl core::str::FromStr for OutputFormat {
    type Err = ProcessError;

    fn from_str(s: &str) -> Result<Self, Self::Err> {
        parse_format(s)
    }
}

} // verus!
