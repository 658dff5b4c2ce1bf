//! Transport: one HTTPS POST of the serialized request, with bounded
//! connect and read timeouts so a hung server cannot stall a login, and no
//! retry — a login attempt must fail fast and predictably.

use vstd::prelude::*;
use crate::chars::lemma_trim_idempotent;
use crate::chars::trim_spec;
use crate::errors::KeyCmdError;
use crate::request::ReqPubKey;
use crate::request::to_json;
use crate::response::RawResponse;
use crate::response::extract_response;

verus! {

/// Why no exchange completed.
#[derive(Debug)]
pub enum TransportError {
    /// Connection, transmission or timeout failure; carries the cause.
    Network(String),
}

/// Mathematical image of `TransportError`.
pub enum TransportErrorV {
    Network(Seq<char>),
}

impl View for TransportError {
    type V = TransportErrorV;

    open spec fn view(&self) -> TransportErrorV {
        match self {
            TransportError::Network(cause) => TransportErrorV::Network(cause@),
        }
    }
}

/// The diagnostic prefix of `TransportError::Network`.
pub open spec fn msg_network() -> Seq<char> {
    "Error retrieving public key from TMS server: "@
}

impl TransportError {
    /// A diagnostic line for the log; never written to stdout.
    pub fn message(&self) -> (r: String)
        ensures
            (*self) matches TransportError::Network(c) ==> r@ == msg_network() + c@,
    {
        match self {
            TransportError::Network(cause) => {
                let mut m = "Error retrieving public key from TMS server: ".to_owned();
                m.append(cause.as_str());
                m
            },
        }
    }
}

/// Relies on attohttpc: POSTs `body` to `url` with a JSON content type, a
/// 5-second connect timeout, a 5-second read timeout and a 10-second
/// deadline on the whole exchange (so neither writing nor reading can
/// stall a login), and returns the exchange's status code and body text,
/// or the error's description.  `RequestBuilder::try_new` makes an
/// unparseable url an error, never a panic.  One request, no retry; the
/// outcome depends on the network, so nothing is promised of it.
#[verifier::external_body]
fn http_post_json(url: &str, body: &str) -> (r: Result<(u16, String), String>) {
    let req = match attohttpc::RequestBuilder::try_new(attohttpc::Method::POST, url) {
        Ok(b) => b.connect_timeout(std::time::Duration::from_secs(5))
            .read_timeout(std::time::Duration::from_secs(5))
            .timeout(std::time::Duration::from_secs(10))
            .header("Content-Type", "application/json")
            .text(body),
        Err(e) => return Err(format!("{e}")),
    };
    match req.send() {
        Ok(resp) => {
            let status = resp.status().as_u16();
            resp.text().map(|text| (status, text)).map_err(|e| format!("{e}"))
        },
        Err(e) => Err(format!("{e}")),
    }
}

/// Serializes the request and performs the single POST.  The outcome
/// depends on the network: every completed exchange comes back as a
/// `RawResponse` (success or not) for the extractor to judge, and every
/// failure to complete one as `Network`.
pub fn send(request: &ReqPubKey, tms_url: &String) -> (r: Result<RawResponse, TransportError>) {
    let body = to_json(request);
    match http_post_json(tms_url.as_str(), body.as_str()) {
        Ok((status, text)) => Ok(RawResponse { status, body: text }),
        Err(cause) => Err(TransportError::Network(cause)),
    }
}

/// Sends the request and extracts the public key from the response:
/// `Ok(Some(key))` only for a clean success with a non-empty key (the key
/// comes back trimmed and non-empty whatever the server sent),
/// `Ok(None)` for a success without a registered key, and the typed
/// failure otherwise.
pub fn send_request(req_pub_key: &ReqPubKey, tms_url: &String) -> (r: Result<
    Option<String>,
    KeyCmdError,
>)
    ensures
        r matches Ok(k) ==> (k matches Some(key) ==> key@ == trim_spec(key@) && key@.len() > 0),
{
    let raw = match send(req_pub_key, tms_url) {
        Ok(raw) => raw,
        Err(e) => {
            return Err(KeyCmdError::Transport(e));
        },
    };
    match extract_response(&raw) {
        Ok(key) => {
            proof {
                match crate::response::json_public_key_of(raw.body@) {
                    Some(j) => lemma_trim_idempotent(j),
                    None => (),
                }
            }
            Ok(key)
        },
        Err(e) => Err(KeyCmdError::Extract(e)),
    }
}

} // verus!
