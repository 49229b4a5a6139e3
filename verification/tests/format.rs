use rcli::Base64Format;
use rcli::OutputFormat;
use rcli::ProcessError;
use rcli::TextSignFormat;
use rcli::parse_base64_format;
use rcli::parse_format;
use rcli::parse_text_sign_format;

#[test]
fn text_sign_format_round_trip() {
    for tag in [TextSignFormat::Blake3, TextSignFormat::Ed25519] {
        assert_eq!(parse_text_sign_format(tag.text()).unwrap(), tag);
    }
    assert_eq!(parse_text_sign_format("blake3").unwrap(), TextSignFormat::Blake3);
    assert_eq!(parse_text_sign_format("ed25519").unwrap(), TextSignFormat::Ed25519);
}

#[test]
fn text_sign_format_is_case_sensitive() {
    assert_eq!(parse_text_sign_format("Blake3").unwrap_err(), ProcessError::FormatParse);
    assert_eq!(parse_text_sign_format("ED25519").unwrap_err(), ProcessError::FormatParse);
    assert_eq!(parse_text_sign_format("sha256").unwrap_err(), ProcessError::FormatParse);
    assert_eq!(parse_text_sign_format("").unwrap_err(), ProcessError::FormatParse);
}

#[test]
fn base64_format_round_trip() {
    for tag in [Base64Format::Standard, Base64Format::UrlSafe] {
        assert_eq!(parse_base64_format(tag.text()).unwrap(), tag);
    }
    assert_eq!(parse_base64_format("nope").unwrap_err(), ProcessError::FormatParse);
}

#[test]
fn output_format_ignores_case() {
    assert_eq!(parse_format("json").unwrap(), OutputFormat::Json);
    assert_eq!(parse_format("JSON").unwrap(), OutputFormat::Json);
    assert_eq!(parse_format("Yaml").unwrap(), OutputFormat::Yaml);
    assert_eq!(parse_format("toml").unwrap_err(), ProcessError::FormatParse);
    assert_eq!(OutputFormat::Json.text(), "json");
    assert_eq!(OutputFormat::Yaml.text(), "yaml");
}
