//! The pipeline's error taxonomy: every stage failure is one of these,
//! all terminal for the run — none is retried, none reaches stdout, and
//! each carries what the log needs and no more.

use vstd::prelude::*;
use crate::args::ArgError;
use crate::args::ArgErrorV;
use crate::args::msg_invalid_userid;
use crate::args::msg_wrong_arity;
use crate::chars::u32_dec_digits;
use crate::config::ConfigError;
use crate::config::ConfigErrorV;
use crate::config::msg_missing_field;
use crate::config::msg_unreadable_config;
use crate::response::ExtractError;
use crate::response::ExtractErrorV;
use crate::response::msg_malformed_response;
use crate::response::msg_server_rejected;
use crate::transport::TransportError;
use crate::transport::TransportErrorV;
use crate::transport::msg_network;
use crate::trust::TrustError;
use crate::trust::TrustErrorV;
use crate::trust::msg_untrusted;

verus! {

/// Any failure of the run, by stage.
#[derive(Debug)]
pub enum KeyCmdError {
    Arg(ArgError),
    Config(ConfigError),
    Trust(TrustError),
    Transport(TransportError),
    Extract(ExtractError),
}

/// Mathematical image of `KeyCmdError`.
pub enum KeyCmdErrorV {
    Arg(ArgErrorV),
    Config(ConfigErrorV),
    Trust(TrustErrorV),
    Transport(TransportErrorV),
    Extract(ExtractErrorV),
}

impl View for KeyCmdError {
    type V = KeyCmdErrorV;

    open spec fn view(&self) -> KeyCmdErrorV {
        match self {
            KeyCmdError::Arg(e) => KeyCmdErrorV::Arg(e@),
            KeyCmdError::Config(e) => KeyCmdErrorV::Config(e@),
            KeyCmdError::Trust(e) => KeyCmdErrorV::Trust(e@),
            KeyCmdError::Transport(e) => KeyCmdErrorV::Transport(e@),
            KeyCmdError::Extract(e) => KeyCmdErrorV::Extract(e@),
        }
    }
}

/// The diagnostic line of each failure.
pub open spec fn key_cmd_message(e: KeyCmdErrorV) -> Seq<char> {
    match e {
        KeyCmdErrorV::Arg(ArgErrorV::WrongArity(_, _)) => msg_wrong_arity(),
        KeyCmdErrorV::Arg(ArgErrorV::InvalidUserId(_)) => msg_invalid_userid(),
        KeyCmdErrorV::Config(ConfigErrorV::Missing(field)) => msg_missing_field() + field,
        KeyCmdErrorV::Config(ConfigErrorV::Unreadable) => msg_unreadable_config(),
        KeyCmdErrorV::Trust(TrustErrorV::Untrusted(detail)) => msg_untrusted() + detail,
        KeyCmdErrorV::Transport(TransportErrorV::Network(cause)) => msg_network() + cause,
        KeyCmdErrorV::Extract(ExtractErrorV::ServerRejected(status, _)) => msg_server_rejected()
            + u32_dec_digits(status as nat),
        KeyCmdErrorV::Extract(ExtractErrorV::MalformedResponse) => msg_malformed_response(),
    }
}

impl KeyCmdError {
    /// A diagnostic line for the log; never written to stdout.
    pub fn message(&self) -> (r: String)
        ensures
            r@ == key_cmd_message(self@),
    {
        match self {
            KeyCmdError::Arg(e) => e.message(),
            KeyCmdError::Config(e) => e.message(),
            KeyCmdError::Trust(e) => e.message(),
            KeyCmdError::Transport(e) => e.message(),
            KeyCmdError::Extract(e) => e.message(),
        }
    }
}

} // verus!
