use tms_keycmd::args::ArgError;
use tms_keycmd::config::ConfigError;
use tms_keycmd::errors::KeyCmdError;
use tms_keycmd::pipeline::Event;
use tms_keycmd::pipeline::Pipeline;
use tms_keycmd::pipeline::RunOutcome;
use tms_keycmd::pipeline::Step;
use tms_keycmd::response::ExtractError;
use tms_keycmd::response::RawResponse;
use tms_keycmd::trust::TrustDecision;

const GOOD_CONFIG: &str = "tms_url = \"https://tms.example\"\nhost_name = \"login1\"\n";

fn argv() -> Vec<String> {
    vec![
        "keycmd".to_string(),
        "jdoe".to_string(),
        "1111".to_string(),
        "SHA256:abc".to_string(),
        "ssh-rsa".to_string(),
    ]
}

/// Drives the machine up to the `CallServer` step with a trusted file and
/// the given configuration text, collecting whether a server call was ever
/// requested.
fn drive_to_server(args: Vec<String>, config: &str) -> (Pipeline, Step) {
    let (p, step) = Pipeline::new(args, None, None);
    assert!(matches!(step, Step::CheckTrust));
    let (p, step) = p.step(Event::TrustChecked(TrustDecision::Trusted));
    assert!(matches!(step, Step::ReadConfig));
    let (mut p, mut step) = p.step(Event::ConfigRead(Some(config.to_string())));
    while matches!(step, Step::Proceed) {
        let next = p.step(Event::Advance);
        p = next.0;
        step = next.1;
    }
    (p, step)
}

/// Feeds the server's reply and drives the machine to its decision.
fn finish_with_reply(p: Pipeline, status: u16, body: &str) -> RunOutcome {
    let raw = RawResponse { status, body: body.to_string() };
    let (mut p, mut step) = p.step(Event::ServerReplied(Ok(raw)));
    loop {
        match step {
            Step::Proceed => {
                let next = p.step(Event::Advance);
                p = next.0;
                step = next.1;
            },
            Step::Finish(outcome) => return outcome,
            _ => panic!("the machine asked for outside work after the reply"),
        }
    }
}

// Scenario: valid arguments and configuration, server returns the key —
// the run succeeds and the key is the one to print.
#[test]
fn test_scenario_success_with_key() {
    let (p, step) = drive_to_server(argv(), GOOD_CONFIG);
    match &step {
        Step::CallServer { url, request } => {
            assert_eq!(url, "https://tms.example");
            assert_eq!(request.user, "jdoe");
            assert_eq!(request.user_uid, "1111");
            assert_eq!(request.host, "login1");
            assert_eq!(request.public_key_fingerprint, "SHA256:abc");
            assert_eq!(request.key_type, "ssh-rsa");
        },
        _ => panic!("expected CallServer"),
    }
    match finish_with_reply(p, 200, "{\"public_key\":\"ssh-rsa AAAAtest\"}") {
        RunOutcome::Success { key } => assert_eq!(key.as_deref(), Some("ssh-rsa AAAAtest")),
        RunOutcome::Failure { .. } => panic!("expected success"),
    }
}

// Scenario: server answers 200 with an empty object — the run fails with a
// malformed response and nothing is printed.
#[test]
fn test_scenario_malformed_response() {
    let (p, step) = drive_to_server(argv(), GOOD_CONFIG);
    assert!(matches!(step, Step::CallServer { .. }));
    match finish_with_reply(p, 200, "{}") {
        RunOutcome::Failure { error: KeyCmdError::Extract(ExtractError::MalformedResponse) } => {},
        _ => panic!("expected MalformedResponse failure"),
    }
}

// Scenario: server answers 404 — the run fails with the rejection and
// nothing is printed.
#[test]
fn test_scenario_server_rejected() {
    let (p, step) = drive_to_server(argv(), GOOD_CONFIG);
    assert!(matches!(step, Step::CallServer { .. }));
    match finish_with_reply(p, 404, "{}") {
        RunOutcome::Failure {
            error: KeyCmdError::Extract(ExtractError::ServerRejected(404, _)),
        } => {},
        _ => panic!("expected ServerRejected failure"),
    }
}

// Scenario: an argument vector of length 3 — the run fails with
// WrongArity(5, 3) and the machine never asks for a server call.
#[test]
fn test_scenario_wrong_arity_no_call() {
    let short = vec!["keycmd".to_string(), "a1".to_string(), "a2".to_string()];
    let (_, step) = drive_to_server(short, GOOD_CONFIG);
    match step {
        Step::CallServer { .. } => panic!("no network call may be made on bad arguments"),
        Step::Finish(RunOutcome::Failure {
            error: KeyCmdError::Arg(ArgError::WrongArity(5, 3)),
        }) => {},
        _ => panic!("expected the WrongArity failure"),
    }
}

// Scenario: the configuration file is present but tms_url is empty — the
// run fails with Missing("tms_url") and the machine never asks for a
// server call.
#[test]
fn test_scenario_empty_tms_url_no_call() {
    let empty_url = "tms_url = \"\"\nhost_name = \"login1\"\n";
    let (_, step) = drive_to_server(argv(), empty_url);
    match step {
        Step::CallServer { .. } => panic!("no network call may be made on bad configuration"),
        Step::Finish(RunOutcome::Failure { error: KeyCmdError::Config(ConfigError::Missing(f)) }) => {
            assert_eq!(f, "tms_url");
        },
        _ => panic!("expected the Missing failure"),
    }
}

// Scenario: the trust check rejects the configuration file — the run fails
// at once, before any read of the file is requested.
#[test]
fn test_scenario_untrusted_halts() {
    let (p, step) = Pipeline::new(argv(), None, None);
    assert!(matches!(step, Step::CheckTrust));
    let (p, step) = p.step(
        Event::TrustChecked(TrustDecision::Untrusted("world writable".to_string())),
    );
    match step {
        Step::Finish(RunOutcome::Failure { error }) => {
            assert!(error.message().contains("Mistrust check on config file failed"));
        },
        _ => panic!("expected an immediate failure"),
    }
    // Once decided, the machine is inert: further events do nothing.
    let (_, step) = p.step(Event::Advance);
    assert!(matches!(step, Step::Idle));
}

// Scenario: the configuration file cannot be read — the run fails with the
// unreadable-file error.
#[test]
fn test_scenario_unreadable_config() {
    let (p, _) = Pipeline::new(argv(), None, None);
    let (p, _) = p.step(Event::TrustChecked(TrustDecision::Trusted));
    let (_, step) = p.step(Event::ConfigRead(None));
    match step {
        Step::Finish(RunOutcome::Failure { error: KeyCmdError::Config(ConfigError::Unreadable) }) => {},
        _ => panic!("expected the Unreadable failure"),
    }
}

// The requestor identity handed to the machine reaches the request.
#[test]
fn test_scenario_requestor_identity() {
    let (p, _) = Pipeline::new(argv(), Some("bastion".to_string()), Some("10.0.0.7".to_string()));
    let (p, _) = p.step(Event::TrustChecked(TrustDecision::Trusted));
    let (mut p, mut step) = p.step(Event::ConfigRead(Some(GOOD_CONFIG.to_string())));
    while matches!(step, Step::Proceed) {
        let next = p.step(Event::Advance);
        p = next.0;
        step = next.1;
    }
    match step {
        Step::CallServer { request, .. } => {
            assert_eq!(request.requestor_host.as_deref(), Some("bastion"));
            assert_eq!(request.requestor_addr.as_deref(), Some("10.0.0.7"));
        },
        _ => panic!("expected CallServer"),
    }
}
