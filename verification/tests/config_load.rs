use tms_keycmd::config::ConfigError;
use tms_keycmd::config::load_config;

// A complete configuration text yields every field.
#[test]
fn test_load_full_config() {
    let text = "tms_url = \"https://tms.example/pubkeys\"\nhost_name = \"login1\"\nclient_id = \"cid\"\nclient_secret = \"SECRET-REDACTED\"\n";
    let cfg = load_config(text).unwrap();
    assert_eq!(cfg.tms_url, "https://tms.example/pubkeys");
    assert_eq!(cfg.host_name, "login1");
    assert_eq!(cfg.client_id.as_deref(), Some("cid"));
    assert_eq!(cfg.client_secret.as_deref(), Some("SECRET-REDACTED"));
}

// The client credentials are optional.
#[test]
fn test_load_without_credentials() {
    let text = "tms_url = \"https://tms.example\"\nhost_name = \"login1\"\n";
    let cfg = load_config(text).unwrap();
    assert_eq!(cfg.client_id, None);
    assert_eq!(cfg.client_secret, None);
}

// A missing required field is reported by name.
#[test]
fn test_load_missing_host_name() {
    let text = "tms_url = \"https://tms.example\"\n";
    match load_config(text) {
        Ok(_) => panic!("missing host_name must be rejected"),
        Err(ConfigError::Missing(field)) => assert_eq!(field, "host_name"),
        Err(_) => panic!("expected Missing"),
    }
}

// A required field that is empty after trimming counts as missing.
#[test]
fn test_load_blank_tms_url() {
    let text = "tms_url = \"  \"\nhost_name = \"login1\"\n";
    match load_config(text) {
        Ok(_) => panic!("blank tms_url must be rejected"),
        Err(ConfigError::Missing(field)) => assert_eq!(field, "tms_url"),
        Err(_) => panic!("expected Missing"),
    }
}

// Text that is not valid TOML yields no field at all, so the first
// required field is reported.
#[test]
fn test_load_unparseable_text() {
    let text = "this is not { valid toml";
    match load_config(text) {
        Ok(_) => panic!("unparseable text must be rejected"),
        Err(ConfigError::Missing(field)) => assert_eq!(field, "tms_url"),
        Err(_) => panic!("expected Missing"),
    }
}

// A required field with a non-string value counts as missing.
#[test]
fn test_load_non_string_value() {
    let text = "tms_url = 17\nhost_name = \"login1\"\n";
    match load_config(text) {
        Ok(_) => panic!("non-string tms_url must be rejected"),
        Err(ConfigError::Missing(field)) => assert_eq!(field, "tms_url"),
        Err(_) => panic!("expected Missing"),
    }
}

// The error message names the field.
#[test]
fn test_missing_message() {
    let e = ConfigError::Missing("tms_url".to_string());
    assert_eq!(e.message(), "Configuration attribute must be set: tms_url");
    assert_eq!(ConfigError::Unreadable.message(), "Error reading config file");
}
