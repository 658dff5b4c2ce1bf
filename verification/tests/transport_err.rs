use tms_keycmd::errors::KeyCmdError;
use tms_keycmd::request::ReqPubKey;
use tms_keycmd::transport::TransportError;
use tms_keycmd::transport::send;
use tms_keycmd::transport::send_request;

fn sample_request() -> ReqPubKey {
    ReqPubKey {
        user: "jdoe".to_string(),
        user_uid: "1111".to_string(),
        host: "login1".to_string(),
        public_key_fingerprint: "SHA256:abc".to_string(),
        key_type: "ssh-rsa".to_string(),
        requestor_host: None,
        requestor_addr: None,
    }
}

// A tms_url that is not a parseable URL fails closed as a transport
// error; nothing panics and no connection is attempted.
#[test]
fn test_send_invalid_url_fails_closed() {
    match send(&sample_request(), &"not a url".to_string()) {
        Err(TransportError::Network(_)) => {},
        Ok(_) => panic!("an invalid URL cannot succeed"),
    }
}

// The same failure surfaces from send_request as the typed transport
// error.
#[test]
fn test_send_request_invalid_url_fails_closed() {
    match send_request(&sample_request(), &"x".to_string()) {
        Err(KeyCmdError::Transport(TransportError::Network(_))) => {},
        _ => panic!("expected a transport failure"),
    }
}
