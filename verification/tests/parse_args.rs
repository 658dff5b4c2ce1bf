use tms_keycmd::args::ArgError;
use tms_keycmd::args::parse_args;

// Test with valid arguments
#[test]
fn test_okay() {
    let okay_args: &[String] = &[
        "keycmd".to_string(),
        "jdoe".to_string(),
        "1111".to_string(),
        "abc_fingerprint_def".to_string(),
        "ssh-key".to_string(),
    ];
    let cmd_args = parse_args(okay_args).unwrap();
    assert_eq!(cmd_args.username, "jdoe");
    assert_eq!(cmd_args.userid, 1111);
    assert_eq!(cmd_args.fingerprint, "abc_fingerprint_def");
}

// Test with too many arguments
#[test]
fn test_too_many_args() {
    let many_args: &[String] = &[
        "keycmd".to_string(),
        "a1".to_string(),
        "a2".to_string(),
        "a3".to_string(),
        "a4".to_string(),
        "a5".to_string(),
        "a6".to_string(),
    ];
    let _cmd_args = match parse_args(many_args) {
        Ok(_) => panic!("ERROR: Call with too many arguments should fail."),
        Err(error) => assert!(error.message().contains("Incorrect number of arguments")),
    };
}

// Test with too few arguments
#[test]
fn test_too_few_args() {
    let few_args: &[String] = &["keycmd".to_string(), "a1".to_string(), "a2".to_string()];
    let _cmd_args = match parse_args(few_args) {
        Ok(_) => panic!("ERROR: Call with too few arguments should fail."),
        Err(error) => assert!(error.message().contains("Incorrect number of arguments")),
    };
}

// Test with invalid userid argument
#[test]
fn test_userid_not_num() {
    let bad_userid_args: &[String] = &[
        "keycmd".to_string(),
        "jdoe".to_string(),
        "1111a".to_string(),
        "abc_fingerprint_def".to_string(),
        "ssh-key".to_string(),
    ];
    let _cmd_args = match parse_args(bad_userid_args) {
        Ok(_) => panic!("ERROR: Call with invalid userid string should fail."),
        Err(error) => assert!(error.message().contains("userid must be a number")),
    };
}

// The wrong-arity error reports the expected and actual lengths.
#[test]
fn test_wrong_arity_values() {
    let few_args: &[String] = &["keycmd".to_string(), "a1".to_string(), "a2".to_string()];
    match parse_args(few_args) {
        Ok(_) => panic!("three-element vector must be rejected"),
        Err(e) => assert!(matches!(e, ArgError::WrongArity(5, 3))),
    }
}

// The invalid-userid error carries the raw argument.
#[test]
fn test_invalid_userid_raw() {
    let bad: &[String] = &[
        "keycmd".to_string(),
        "jdoe".to_string(),
        "12x".to_string(),
        "fp".to_string(),
        "ssh-rsa".to_string(),
    ];
    match parse_args(bad) {
        Ok(_) => panic!("non-numeric userid must be rejected"),
        Err(ArgError::InvalidUserId(raw)) => assert_eq!(raw, "12x"),
        Err(_) => panic!("expected InvalidUserId"),
    }
}

// A six-element vector is the five-argument mode: home_dir sits before the
// fingerprint.
#[test]
fn test_home_dir_mode() {
    let args6: &[String] = &[
        "keycmd".to_string(),
        "jdoe".to_string(),
        "1111".to_string(),
        "/home/jdoe".to_string(),
        "SHA256:abc".to_string(),
        "ssh-rsa".to_string(),
    ];
    let cmd = parse_args(args6).unwrap();
    assert_eq!(cmd.username, "jdoe");
    assert_eq!(cmd.userid, 1111);
    assert_eq!(cmd.home_dir.as_deref(), Some("/home/jdoe"));
    assert_eq!(cmd.fingerprint, "SHA256:abc");
    assert_eq!(cmd.keytype, "ssh-rsa");
}

// The userid is trimmed before parsing, and a leading plus is accepted.
#[test]
fn test_userid_trimmed() {
    let args5: &[String] = &[
        "keycmd".to_string(),
        "jdoe".to_string(),
        " +42 ".to_string(),
        "fp".to_string(),
        "ssh-rsa".to_string(),
    ];
    let cmd = parse_args(args5).unwrap();
    assert_eq!(cmd.userid, 42);
    assert_eq!(cmd.home_dir, None);
}

// A userid beyond the unsigned 32-bit range is rejected.
#[test]
fn test_userid_overflow() {
    let args5: &[String] = &[
        "keycmd".to_string(),
        "jdoe".to_string(),
        "4294967296".to_string(),
        "fp".to_string(),
        "ssh-rsa".to_string(),
    ];
    match parse_args(args5) {
        Ok(_) => panic!("overflowing userid must be rejected"),
        Err(e) => assert!(matches!(e, ArgError::InvalidUserId(_))),
    }
}
