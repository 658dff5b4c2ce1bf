//! Credential-resolution helper library for an SSH `AuthorizedKeysCommand`
//! hook.  Given the login attempt's username, numeric uid, key fingerprint
//! and key type, it prepares and validates a key-lookup exchange with a
//! remote Trust Manager System (TMS) under fail-closed semantics: no stage
//! may emit anything on standard output unless the whole pipeline succeeds
//! with a non-empty key.

use vstd::prelude::*;

pub mod args;
pub mod chars;
pub mod config;
pub mod errors;
pub mod json;
pub mod pipeline;
pub mod request;
pub mod response;
pub mod transport;
pub mod trust;

verus! {

/// How the command must be invoked.
pub const USAGE: &'static str = "Usage: keycmd <username> <userid> [<home_dir>] <fingerprint> <keytype>";

/// Fixed relative path of the configuration file.
pub const CFG_FILE: &'static str = "tms_keycmd.toml";

/// Fixed relative path of the logging configuration file.
pub const LOG_CFG_FILE: &'static str = "log4rs.yml";

} // verus!
