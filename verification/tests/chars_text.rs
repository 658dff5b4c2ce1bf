use tms_keycmd::chars::parse_u32_dec;
use tms_keycmd::chars::trim_str;
use tms_keycmd::chars::u32_to_dec_string;
use tms_keycmd::errors::KeyCmdError;
use tms_keycmd::transport::TransportError;
use tms_keycmd::trust::TrustError;

// Decimal parsing accepts exactly what u32 parsing accepts.
#[test]
fn test_parse_u32_values() {
    assert_eq!(parse_u32_dec("0"), Some(0));
    assert_eq!(parse_u32_dec("1111"), Some(1111));
    assert_eq!(parse_u32_dec("+42"), Some(42));
    assert_eq!(parse_u32_dec("4294967295"), Some(4294967295));
    assert_eq!(parse_u32_dec("4294967296"), None);
    assert_eq!(parse_u32_dec(""), None);
    assert_eq!(parse_u32_dec("+"), None);
    assert_eq!(parse_u32_dec("-1"), None);
    assert_eq!(parse_u32_dec("12a"), None);
    assert_eq!(parse_u32_dec(" 5"), None);
}

// Decimal printing writes the digits without padding.
#[test]
fn test_u32_to_dec_string_values() {
    assert_eq!(u32_to_dec_string(0), "0");
    assert_eq!(u32_to_dec_string(7), "7");
    assert_eq!(u32_to_dec_string(1111), "1111");
    assert_eq!(u32_to_dec_string(4294967295), "4294967295");
}

// Trimming removes exactly the whitespace at both ends.
#[test]
fn test_trim_values() {
    assert_eq!(trim_str("  a b\t\n"), "a b");
    assert_eq!(trim_str("abc"), "abc");
    assert_eq!(trim_str("   "), "");
    assert_eq!(trim_str(""), "");
    assert_eq!(trim_str("\u{2003}x\u{2003}"), "x");
    assert_eq!(trim_str("a \u{a0} b"), "a \u{a0} b");
}

// Each error category carries its diagnostic line.
#[test]
fn test_error_messages() {
    let network = KeyCmdError::Transport(TransportError::Network("timed out".to_string()));
    assert_eq!(
        network.message(),
        "Error retrieving public key from TMS server: timed out"
    );
    let trust = KeyCmdError::Trust(TrustError::Untrusted("bad owner".to_string()));
    assert_eq!(trust.message(), "Mistrust check on config file failed: bad owner");
}
