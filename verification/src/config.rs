//! Configuration loading: the operator-supplied key/value text is read
//! through the TOML provider and validated here.  Required fields must be
//! present and non-empty after trimming; nothing is defaulted silently.

use vstd::prelude::*;
use figment::providers::Format;
use crate::chars::trim_spec;
use crate::chars::trim_str;

verus! {

/// Operator configuration, loaded once per invocation.  Invariant: both
/// required fields are non-empty after trimming whitespace.
pub struct Config {
    pub tms_url: String,
    pub host_name: String,
    pub client_id: Option<String>,
    pub client_secret: Option<String>,
}

/// Mathematical image of `Config`.
pub struct ConfigV {
    pub tms_url: Seq<char>,
    pub host_name: Seq<char>,
    pub client_id: Option<Seq<char>>,
    pub client_secret: Option<Seq<char>>,
}

impl View for Config {
    type V = ConfigV;

    open spec fn view(&self) -> ConfigV {
        ConfigV {
            tms_url: self.tms_url@,
            host_name: self.host_name@,
            client_id: self.client_id.deep_view(),
            client_secret: self.client_secret.deep_view(),
        }
    }
}

/// Why a configuration text was rejected.
#[derive(Debug)]
pub enum ConfigError {
    /// A required field is absent, not a string, or empty after trimming;
    /// carries the field name.
    Missing(String),
    /// The configuration file could not be read at all.
    Unreadable,
}

/// Mathematical image of `ConfigError`.
pub enum ConfigErrorV {
    Missing(Seq<char>),
    Unreadable,
}

impl View for ConfigError {
    type V = ConfigErrorV;

    open spec fn view(&self) -> ConfigErrorV {
        match self {
            ConfigError::Missing(field) => ConfigErrorV::Missing(field@),
            ConfigError::Unreadable => ConfigErrorV::Unreadable,
        }
    }
}

/// The diagnostic prefix of `ConfigError::Missing`.
pub open spec fn msg_missing_field() -> Seq<char> {
    "Configuration attribute must be set: "@
}

/// The diagnostic line of `ConfigError::Unreadable`.
pub open spec fn msg_unreadable_config() -> Seq<char> {
    "Error reading config file"@
}

impl ConfigError {
    /// A diagnostic line for the log; never written to stdout.
    pub fn message(&self) -> (r: String)
        ensures
            (*self) matches ConfigError::Missing(f) ==> r@ == msg_missing_field() + f@,
            (*self) matches ConfigError::Unreadable ==> r@ == msg_unreadable_config(),
    {
        match self {
            ConfigError::Missing(field) => {
                let mut m = "Configuration attribute must be set: ".to_owned();
                m.append(field.as_str());
                m
            },
            ConfigError::Unreadable => "Error reading config file".to_owned(),
        }
    }
}

/// The string value that the structured configuration text `text` gives to
/// `key`, or `None` when the text does not parse, the key is absent, or
/// its value is not a string.
pub uninterp spec fn toml_string_field(text: Seq<char>, key: Seq<char>) -> Option<Seq<char>>;

/// Relies on figment's `Figment::find_value` over a `Toml::string`
/// provider and on `figment::value::Value::into_string`: for fixed `text`
/// and `key` the outcome is a pure function of the two; unparseable text,
/// a missing key and a non-string value all give `None`.
#[verifier::external_body]
fn toml_find_string(text: &str, key: &str) -> (r: Option<String>)
    ensures
        match r {
            Some(v) => toml_string_field(text@, key@) == Some(v@),
            None => toml_string_field(text@, key@) is None,
        },
{
    let fig = figment::Figment::new().merge(figment::providers::Toml::string(text));
    match fig.find_value(key) {
        Ok(v) => v.into_string(),
        Err(_) => None,
    }
}

/// A required field is present as a string and non-empty after trimming.
pub open spec fn required_ok(v: Option<Seq<char>>) -> bool {
    v matches Some(s) && trim_spec(s).len() > 0
}

/// What `load_config` returns: `tms_url` and `host_name` are required,
/// checked in that order; the client credentials are optional and taken
/// verbatim when present.
pub open spec fn load_config_spec(text: Seq<char>) -> Result<ConfigV, ConfigErrorV> {
    if !required_ok(toml_string_field(text, "tms_url"@)) {
        Err(ConfigErrorV::Missing("tms_url"@))
    } else if !required_ok(toml_string_field(text, "host_name"@)) {
        Err(ConfigErrorV::Missing("host_name"@))
    } else {
        Ok(
            ConfigV {
                tms_url: toml_string_field(text, "tms_url"@).unwrap(),
                host_name: toml_string_field(text, "host_name"@).unwrap(),
                client_id: toml_string_field(text, "client_id"@),
                client_secret: toml_string_field(text, "client_secret"@),
            },
        )
    }
}

/// Parses and validates the configuration text.  Fails with
/// `Missing(field)` exactly when a required field is absent or empty
/// after trimming; never substitutes a default for a required field.
pub fn load_config(text: &str) -> (r: Result<Config, ConfigError>)
    ensures
        match r {
            Ok(c) => load_config_spec(text@) == Ok::<ConfigV, ConfigErrorV>(c@),
            Err(e) => load_config_spec(text@) == Err::<ConfigV, ConfigErrorV>(e@),
        },
{
    let tms_url = match toml_find_string(text, "tms_url") {
        Some(u) => u,
        None => {
            return Err(ConfigError::Missing("tms_url".to_owned()));
        },
    };
    if trim_str(tms_url.as_str()).is_empty() {
        return Err(ConfigError::Missing("tms_url".to_owned()));
    }
    let host_name = match toml_find_string(text, "host_name") {
        Some(h) => h,
        None => {
            return Err(ConfigError::Missing("host_name".to_owned()));
        },
    };
    if trim_str(host_name.as_str()).is_empty() {
        return Err(ConfigError::Missing("host_name".to_owned()));
    }
    let client_id = toml_find_string(text, "client_id");
    let client_secret = toml_find_string(text, "client_secret");
    Ok(Config { tms_url, host_name, client_id, client_secret })
}

} // verus!
