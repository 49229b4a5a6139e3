use vstd::prelude::*;

pub mod b64;
pub mod format;
pub mod genpass;
pub mod opts;
pub mod text;

pub use b64::process_decode;
pub use b64::process_encode;
pub use genpass::process_genpass;
pub use opts::Base64DecodeOpts;
pub use opts::Base64EncodeOpts;
pub use opts::Base64SubCommand;
pub use opts::CsvOpts;
pub use opts::GenPassOpts;
pub use opts::KeyGenerateOpts;
pub use opts::Opts;
pub use opts::SubCommand;
pub use opts::TextSignOpts;
pub use opts::TextSubCommand;
pub use opts::TextVerifyOpts;
pub use text::Blake3;
pub use text::Ed25519Signer;
pub use text::Ed25519Verifier;
pub use text::TextSigner;
pub use text::TextTryNew;
pub use text::TextVerifier;
pub use text::process_text_key_generate;
pub use text::process_text_sign;
pub use text::process_text_verify;

pub use format::Base64Format;
pub use format::OutputFormat;
pub use format::TextSignFormat;
pub use format::parse_base64_format;
pub use format::parse_format;
pub use format::parse_text_sign_format;

verus! {

/// The error kinds that the signing, key-handling and encoding operations
/// report. Every failure of the library is one of these; none of them is
/// recovered from internally.
#[derive(Clone, Copy, Debug, PartialEq, Eq, Structural)]
pub enum ProcessError {
    /// A scheme tag or output-format tag that no variant matches.
    FormatParse,
    /// Key material shorter than 32 bytes, or a public key that is not a
    /// legal curve-point encoding.
    KeyFormat,
    /// Signature bytes of the wrong length on the asymmetric verify path.
    SignatureFormat,
    /// The secure random source was unavailable during key generation.
    EntropySource,
    /// A requested password shorter than the number of selected classes.
    PasswordLength,
    /// A password request with no character class selected.
    PasswordClasses,
    /// Text that is not valid base64 in the requested alphabet.
    Base64Decode,
    /// Decoded bytes that are not valid UTF-8.
    Utf8Decode,
}

} // verus!
