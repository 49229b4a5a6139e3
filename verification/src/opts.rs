use vstd::prelude::*;
use crate::format::Base64Format;
use crate::format::OutputFormat;
use crate::format::TextSignFormat;

verus! {

/// The top-level command selection.
#[derive(Debug)]
pub struct Opts {
    pub cmd: SubCommand,
}

/// The commands the tool offers.
#[derive(Debug)]
pub enum SubCommand {
    Csv(CsvOpts),
    GenPass(GenPassOpts),
    Base64(Base64SubCommand),
    Text(TextSubCommand),
}

/// Options of the CSV conversion command.
#[derive(Debug)]
pub struct CsvOpts {
    pub input: String,
    pub format: OutputFormat,
    pub output: Option<String>,
    pub delimiter: char,
    pub header: bool,
}

/// Options of the password generation command. Each class flag switches the
/// class off; all classes are on by default.
#[derive(Debug)]
pub struct GenPassOpts {
    pub length: u8,
    pub no_upper_case: bool,
    pub no_lower_case: bool,
    pub no_number: bool,
    pub no_symbol: bool,
}

/// The base64 subcommands.
#[derive(Debug)]
pub enum Base64SubCommand {
    Encode(Base64EncodeOpts),
    Decode(Base64DecodeOpts),
}

/// Options of the base64 encode subcommand; `input` is a file path or `-`
/// for standard input.
#[derive(Debug)]
pub struct Base64EncodeOpts {
    pub input: String,
    pub format: Base64Format,
}

/// Options of the base64 decode subcommand; `input` is a file path or `-`
/// for standard input.
#[derive(Debug)]
pub struct Base64DecodeOpts {
    pub input: String,
    pub format: Base64Format,
}

/// The text signing subcommands.
#[derive(Debug)]
pub enum TextSubCommand {
    Sign(TextSignOpts),
    Verify(TextVerifyOpts),
    Generate(KeyGenerateOpts),
}

/// Options of the sign subcommand; `input` and `key` are file paths, `-`
/// meaning standard input.
#[derive(Debug)]
pub struct TextSignOpts {
    pub input: String,
    pub key: String,
    pub format: TextSignFormat,
}

/// Options of the verify subcommand; `sig` is the path of the base64 encoded
/// signature.
#[derive(Debug)]
pub struct TextVerifyOpts {
    pub input: String,
    pub key: String,
    pub format: TextSignFormat,
    pub sig: String,
}

/// Options of the key generation subcommand; generated entries are written
/// under `output_path`.
#[derive(Debug)]
pub struct KeyGenerateOpts {
    pub format: TextSignFormat,
    pub output_path: String,
}

} // verus!
