use tms_keycmd::response::ExtractError;
use tms_keycmd::response::RawResponse;
use tms_keycmd::response::extract_response;

fn raw(status: u16, body: &str) -> RawResponse {
    RawResponse { status, body: body.to_string() }
}

// A clean success body yields the trimmed key.
#[test]
fn test_extract_key() {
    let r = extract_response(&raw(200, "{\"public_key\":\" ssh-rsa AAAAtest \"}")).unwrap();
    assert_eq!(r.as_deref(), Some("ssh-rsa AAAAtest"));
}

// A success body whose key is empty after trimming is a quiet "no key".
#[test]
fn test_extract_empty_key_is_quiet() {
    let r = extract_response(&raw(204, "{\"public_key\":\"  \"}")).unwrap();
    assert_eq!(r, None);
}

// A success body without the member is malformed.
#[test]
fn test_extract_missing_member() {
    match extract_response(&raw(200, "{}")) {
        Err(ExtractError::MalformedResponse) => {},
        other => panic!("expected MalformedResponse, got {:?}", other.is_ok()),
    }
}

// A success body whose member is not a string is malformed.
#[test]
fn test_extract_non_string_member() {
    match extract_response(&raw(200, "{\"public_key\": 17}")) {
        Err(ExtractError::MalformedResponse) => {},
        _ => panic!("expected MalformedResponse"),
    }
}

// A success body that is not JSON at all is malformed.
#[test]
fn test_extract_invalid_json() {
    match extract_response(&raw(200, "not json")) {
        Err(ExtractError::MalformedResponse) => {},
        _ => panic!("expected MalformedResponse"),
    }
}

// A non-success status is rejected before the body is looked at, even if
// a key-shaped field is present.
#[test]
fn test_extract_rejects_non_success() {
    match extract_response(&raw(404, "{\"public_key\":\"spoofed\"}")) {
        Err(ExtractError::ServerRejected(status, excerpt)) => {
            assert_eq!(status, 404);
            assert_eq!(excerpt, "{\"public_key\":\"spoofed\"}");
        },
        _ => panic!("expected ServerRejected"),
    }
}

// The excerpt kept for the log is capped at 200 characters.
#[test]
fn test_excerpt_is_capped() {
    let long_body: String = "x".repeat(500);
    match extract_response(&raw(500, &long_body)) {
        Err(ExtractError::ServerRejected(status, excerpt)) => {
            assert_eq!(status, 500);
            assert_eq!(excerpt.len(), 200);
        },
        _ => panic!("expected ServerRejected"),
    }
}

// The rejection message names the status.
#[test]
fn test_extract_messages() {
    let e = ExtractError::ServerRejected(404, "nope".to_string());
    assert_eq!(e.message(), "Request not successful. Status: 404");
    assert_eq!(
        ExtractError::MalformedResponse.message(),
        "Unable to find public key in json response. Please see response received."
    );
}
