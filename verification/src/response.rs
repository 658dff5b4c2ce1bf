//! Response extraction: HTTP success is decided from the status code
//! before the body is looked at, and the public key is taken only from a
//! syntactically clean success body.  A key-shaped field in a non-success
//! response is never returned.

use vstd::prelude::*;
use crate::chars::trim_spec;
use crate::chars::trim_str;
use crate::chars::u32_dec_digits;
use crate::chars::u32_to_dec_string;

verus! {

/// One completed HTTP exchange: the status code and the body text, kept
/// regardless of success so the extractor can decide.
pub struct RawResponse {
    pub status: u16,
    pub body: String,
}

/// Mathematical image of `RawResponse`.
pub struct RawResponseV {
    pub status: u16,
    pub body: Seq<char>,
}

impl View for RawResponse {
    type V = RawResponseV;

    open spec fn view(&self) -> RawResponseV {
        RawResponseV { status: self.status, body: self.body@ }
    }
}

/// Why a completed exchange yielded no key.
#[derive(Debug)]
pub enum ExtractError {
    /// The status code was not a success; carries the code and an excerpt
    /// of the body for the log.
    ServerRejected(u16, String),
    /// The success body was not a JSON object with a string `public_key`
    /// member.
    MalformedResponse,
}

/// Mathematical image of `ExtractError`.
pub enum ExtractErrorV {
    ServerRejected(u16, Seq<char>),
    MalformedResponse,
}

impl View for ExtractError {
    type V = ExtractErrorV;

    open spec fn view(&self) -> ExtractErrorV {
        match self {
            ExtractError::ServerRejected(status, excerpt) => ExtractErrorV::ServerRejected(
                *status,
                excerpt@,
            ),
            ExtractError::MalformedResponse => ExtractErrorV::MalformedResponse,
        }
    }
}

/// The diagnostic prefix of `ExtractError::ServerRejected`.
pub open spec fn msg_server_rejected() -> Seq<char> {
    "Request not successful. Status: "@
}

/// The diagnostic line of `ExtractError::MalformedResponse`.
pub open spec fn msg_malformed_response() -> Seq<char> {
    "Unable to find public key in json response. Please see response received."@
}

impl ExtractError {
    /// A diagnostic line for the log; never written to stdout.
    pub fn message(&self) -> (r: String)
        ensures
            (*self) matches ExtractError::ServerRejected(st, _) ==> r@ == msg_server_rejected()
                + u32_dec_digits(st as nat),
            (*self) matches ExtractError::MalformedResponse ==> r@ == msg_malformed_response(),
    {
        match self {
            ExtractError::ServerRejected(status, _) => {
                let mut m = "Request not successful. Status: ".to_owned();
                let digits = u32_to_dec_string(*status as u32);
                m.append(digits.as_str());
                m
            },
            ExtractError::MalformedResponse => {
                "Unable to find public key in json response. Please see response received.".to_owned()
            },
        }
    }
}

/// The string value of the `public_key` member of the JSON object that
/// `body` parses to, or `None` when `body` is not valid JSON, not an
/// object, or has no string `public_key` member.
pub uninterp spec fn json_public_key_of(body: Seq<char>) -> Option<Seq<char>>;

/// Relies on `serde_json::from_str::<Value>`, `Value::get` and
/// `Value::as_str`: for a fixed body text the outcome is a pure function
/// of that text; unparseable text, a non-object value, a missing member
/// and a non-string member all give `None`.
#[verifier::external_body]
fn json_find_public_key(body: &str) -> (r: Option<String>)
    ensures
        match r {
            Some(k) => json_public_key_of(body@) == Some(k@),
            None => json_public_key_of(body@) is None,
        },
{
    match serde_json::from_str::<serde_json::Value>(body) {
        Ok(v) => match v.get("public_key") {
            Some(p) => p.as_str().map(|s| s.to_string()),
            None => None,
        },
        Err(_) => None,
    }
}

/// A status code that HTTP counts as success.
pub open spec fn is_success_status(status: u16) -> bool {
    200 <= status < 300
}

/// At most the first 200 characters of the body, for diagnostics.
pub open spec fn body_excerpt(body: Seq<char>) -> Seq<char> {
    if body.len() <= 200 {
        body
    } else {
        body.subrange(0, 200)
    }
}

/// What `extract_response` returns: a non-success status is rejected
/// before the body is consumed; on success the `public_key` member is
/// required, its trimmed value is the key, and an empty trimmed value
/// means "no key registered" (a quiet success).
pub open spec fn extract_spec(status: u16, body: Seq<char>) -> Result<
    Option<Seq<char>>,
    ExtractErrorV,
> {
    if !is_success_status(status) {
        Err(ExtractErrorV::ServerRejected(status, body_excerpt(body)))
    } else {
        match json_public_key_of(body) {
            None => Err(ExtractErrorV::MalformedResponse),
            Some(k) => if trim_spec(k).len() == 0 {
                Ok(None)
            } else {
                Ok(Some(trim_spec(k)))
            },
        }
    }
}

/// Validates one completed exchange and extracts the trimmed public key,
/// a quiet "no key", or the typed failure, exactly as `extract_spec`
/// says.
pub fn extract_response(raw: &RawResponse) -> (r: Result<Option<String>, ExtractError>)
    ensures
        match r {
            Ok(k) => extract_spec(raw.status, raw.body@) == Ok::<
                Option<Seq<char>>,
                ExtractErrorV,
            >(k.deep_view()),
            Err(e) => extract_spec(raw.status, raw.body@) == Err::<
                Option<Seq<char>>,
                ExtractErrorV,
            >(e@),
        },
{
    if !(200 <= raw.status && raw.status < 300) {
        let len = raw.body.as_str().unicode_len();
        let cut = if len <= 200 {
            len
        } else {
            200
        };
        let excerpt = raw.body.as_str().substring_char(0, cut);
        proof {
            assert(excerpt@ =~= body_excerpt(raw.body@));
        }
        return Err(ExtractError::ServerRejected(raw.status, excerpt.to_owned()));
    }
    match json_find_public_key(raw.body.as_str()) {
        None => Err(ExtractError::MalformedResponse),
        Some(k) => {
            let trimmed = trim_str(k.as_str());
            if trimmed.is_empty() {
                Ok(None)
            } else {
                Ok(Some(trimmed.to_owned()))
            }
        },
    }
}

} // verus!
