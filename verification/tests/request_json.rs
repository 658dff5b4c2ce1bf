use tms_keycmd::args::parse_args;
use tms_keycmd::config::load_config;
use tms_keycmd::request::ReqPubKey;
use tms_keycmd::request::build_request;
use tms_keycmd::request::to_json;

fn plain_request() -> ReqPubKey {
    ReqPubKey {
        user: "jdoe".to_string(),
        user_uid: "1111".to_string(),
        host: "login1".to_string(),
        public_key_fingerprint: "SHA256:abc".to_string(),
        key_type: "ssh-rsa".to_string(),
        requestor_host: None,
        requestor_addr: None,
    }
}

// The serialized request is exactly one flat JSON object with the fixed
// member order.
#[test]
fn test_to_json_exact() {
    let body = to_json(&plain_request());
    assert_eq!(
        body,
        "{\"user\":\"jdoe\",\"user_uid\":\"1111\",\"host\":\"login1\",\
         \"public_key_fingerprint\":\"SHA256:abc\",\"key_type\":\"ssh-rsa\"}"
    );
}

// Quotes, backslashes and control characters in a field are escaped.
#[test]
fn test_to_json_escapes() {
    let mut req = plain_request();
    req.user = "a\"b\\c\nd\u{1}e".to_string();
    let body = to_json(&req);
    assert!(body.starts_with("{\"user\":\"a\\\"b\\\\c\\nd\\u0001e\",\"user_uid\":\"1111\""));
}

// The requestor identity members appear only when present.
#[test]
fn test_to_json_requestor_members() {
    let mut req = plain_request();
    req.requestor_host = Some("bastion".to_string());
    req.requestor_addr = Some("10.0.0.7".to_string());
    let body = to_json(&req);
    assert_eq!(
        body,
        "{\"user\":\"jdoe\",\"user_uid\":\"1111\",\"host\":\"login1\",\
         \"public_key_fingerprint\":\"SHA256:abc\",\"key_type\":\"ssh-rsa\",\
         \"requestor_host\":\"bastion\",\"requestor_addr\":\"10.0.0.7\"}"
    );
}

// Round trip: a request built from an argument vector and a configuration
// serializes to JSON that deserializes back to the same field values.
#[test]
fn test_round_trip_through_json() {
    let args: &[String] = &[
        "keycmd".to_string(),
        "j\"doe\\".to_string(),
        "1111".to_string(),
        "SHA256:a\nbc".to_string(),
        "ssh-rsa".to_string(),
    ];
    let cmd = parse_args(args).unwrap();
    let cfg = load_config("tms_url = \"https://tms.example\"\nhost_name = \"login\u{9}1\"\n")
        .unwrap();
    let req = build_request(&cmd, &cfg, None, None);
    let body = to_json(&req);
    let value: serde_json::Value = serde_json::from_str(&body).unwrap();
    assert_eq!(value["user"].as_str(), Some("j\"doe\\"));
    assert_eq!(value["user_uid"].as_str(), Some("1111"));
    assert_eq!(value["host"].as_str(), Some("login\t1"));
    assert_eq!(value["public_key_fingerprint"].as_str(), Some("SHA256:a\nbc"));
    assert_eq!(value["key_type"].as_str(), Some("ssh-rsa"));
    assert_eq!(value.as_object().unwrap().len(), 5);
}

// The uid is stringified in decimal.
#[test]
fn test_build_request_fields() {
    let args: &[String] = &[
        "keycmd".to_string(),
        "jdoe".to_string(),
        "4294967295".to_string(),
        "fp".to_string(),
        "ssh-ed25519".to_string(),
    ];
    let cmd = parse_args(args).unwrap();
    let cfg = load_config("tms_url = \"u\"\nhost_name = \"h\"\n").unwrap();
    let req = build_request(&cmd, &cfg, Some("rh".to_string()), None);
    assert_eq!(req.user, "jdoe");
    assert_eq!(req.user_uid, "4294967295");
    assert_eq!(req.host, "h");
    assert_eq!(req.public_key_fingerprint, "fp");
    assert_eq!(req.key_type, "ssh-ed25519");
    assert_eq!(req.requestor_host.as_deref(), Some("rh"));
    assert_eq!(req.requestor_addr, None);
}
