//! Pipeline orchestration as an explicit state machine.  The machine holds
//! the run's state and decides every transition; the caller performs the
//! outside work each `Step` asks for (trust check, file read, the single
//! POST, the final exit) and hands the outcome back as an `Event`.  Every
//! stage failure moves straight to `Done` with a `Finish(Failure)` step:
//! fail closed, nothing on stdout, non-zero exit.

use vstd::prelude::*;
use crate::args::CmdArgs;
use crate::args::CmdArgsV;
use crate::args::parse_args;
use crate::args::parse_args_spec;
use crate::config::Config;
use crate::config::ConfigError;
use crate::config::ConfigErrorV;
use crate::config::ConfigV;
use crate::config::load_config;
use crate::config::load_config_spec;
use crate::errors::KeyCmdError;
use crate::errors::KeyCmdErrorV;
use crate::request::ReqPubKey;
use crate::request::ReqPubKeyV;
use crate::request::build_request;
use crate::request::build_request_spec;
use crate::response::RawResponse;
use crate::response::RawResponseV;
use crate::response::extract_response;
use crate::response::extract_spec;
use crate::response::ExtractErrorV;
use crate::transport::TransportError;
use crate::transport::TransportErrorV;
use crate::trust::TrustDecision;
use crate::trust::TrustDecisionV;
use crate::trust::TrustError;
use crate::trust::TrustErrorV;

verus! {

/// Where the run stands.
pub enum Stage {
    Init,
    TrustChecked,
    ConfigLoaded { cfg: Config },
    ArgsParsed { cfg: Config, cmd: CmdArgs },
    RequestBuilt,
    ResponseReceived { key: Option<String> },
    Done,
}

/// Mathematical image of `Stage`.
pub enum StageV {
    Init,
    TrustChecked,
    ConfigLoaded { cfg: ConfigV },
    ArgsParsed { cfg: ConfigV, cmd: CmdArgsV },
    RequestBuilt,
    ResponseReceived { key: Option<Seq<char>> },
    Done,
}

impl View for Stage {
    type V = StageV;

    open spec fn view(&self) -> StageV {
        match self {
            Stage::Init => StageV::Init,
            Stage::TrustChecked => StageV::TrustChecked,
            Stage::ConfigLoaded { cfg } => StageV::ConfigLoaded { cfg: cfg@ },
            Stage::ArgsParsed { cfg, cmd } => StageV::ArgsParsed { cfg: cfg@, cmd: cmd@ },
            Stage::RequestBuilt => StageV::RequestBuilt,
            Stage::ResponseReceived { key } => StageV::ResponseReceived { key: key.deep_view() },
            Stage::Done => StageV::Done,
        }
    }
}

/// What the run ends as: quiet success without a key, success with the
/// key to print, or a logged failure with non-zero exit.
pub enum RunOutcome {
    Success { key: Option<String> },
    Failure { error: KeyCmdError },
}

/// Mathematical image of `RunOutcome`.
pub enum RunOutcomeV {
    Success { key: Option<Seq<char>> },
    Failure { error: KeyCmdErrorV },
}

impl View for RunOutcome {
    type V = RunOutcomeV;

    open spec fn view(&self) -> RunOutcomeV {
        match self {
            RunOutcome::Success { key } => RunOutcomeV::Success { key: key.deep_view() },
            RunOutcome::Failure { error } => RunOutcomeV::Failure { error: error@ },
        }
    }
}

/// What the caller must do next.
pub enum Step {
    /// Trust-check the configuration file, then hand back `TrustChecked`.
    CheckTrust,
    /// Read the configuration file's text, then hand back `ConfigRead`.
    ReadConfig,
    /// Nothing outside to do: hand back `Advance`.
    Proceed,
    /// POST the serialized request to the url, then hand back
    /// `ServerReplied`.
    CallServer { url: String, request: ReqPubKey },
    /// The run is decided: print the key only on success-with-key, exit 0
    /// on success, exit non-zero and silent on failure.
    Finish(RunOutcome),
    /// The run was already decided, or the event does not belong to the
    /// stage; nothing to do.
    Idle,
}

/// Mathematical image of `Step`.
pub enum StepV {
    CheckTrust,
    ReadConfig,
    Proceed,
    CallServer { url: Seq<char>, request: ReqPubKeyV },
    Finish(RunOutcomeV),
    Idle,
}

impl View for Step {
    type V = StepV;

    open spec fn view(&self) -> StepV {
        match self {
            Step::CheckTrust => StepV::CheckTrust,
            Step::ReadConfig => StepV::ReadConfig,
            Step::Proceed => StepV::Proceed,
            Step::CallServer { url, request } => StepV::CallServer {
                url: url@,
                request: request@,
            },
            Step::Finish(outcome) => StepV::Finish(outcome@),
            Step::Idle => StepV::Idle,
        }
    }
}

/// What the outside work reported back.
pub enum Event {
    /// The trust verdict on the configuration file.
    TrustChecked(TrustDecision),
    /// The configuration file's text, or `None` when it could not be read.
    ConfigRead(Option<String>),
    /// Nothing was to be done.
    Advance,
    /// The transport's outcome: a completed exchange or a network failure.
    ServerReplied(Result<RawResponse, TransportError>),
}

/// Mathematical image of `Event`.
pub enum EventV {
    TrustChecked(TrustDecisionV),
    ConfigRead(Option<Seq<char>>),
    Advance,
    ServerReplied(Result<RawResponseV, TransportErrorV>),
}

impl View for Event {
    type V = EventV;

    open spec fn view(&self) -> EventV {
        match self {
            Event::TrustChecked(d) => EventV::TrustChecked(d@),
            Event::ConfigRead(text) => EventV::ConfigRead(text.deep_view()),
            Event::Advance => EventV::Advance,
            Event::ServerReplied(outcome) => EventV::ServerReplied(
                match outcome {
                    Ok(raw) => Ok(raw@),
                    Err(e) => Err(e@),
                },
            ),
        }
    }
}

/// The whole run's state: the raw argument vector and the optional local
/// identity are fixed at creation; only the stage moves.
pub struct Pipeline {
    args: Vec<String>,
    requestor_host: Option<String>,
    requestor_addr: Option<String>,
    stage: Stage,
}

/// Mathematical image of `Pipeline`.
pub struct PipelineV {
    pub args: Seq<Seq<char>>,
    pub requestor_host: Option<Seq<char>>,
    pub requestor_addr: Option<Seq<char>>,
    pub stage: StageV,
}

impl View for Pipeline {
    type V = PipelineV;

    closed spec fn view(&self) -> PipelineV {
        PipelineV {
            args: self.args.deep_view(),
            requestor_host: self.requestor_host.deep_view(),
            requestor_addr: self.requestor_addr.deep_view(),
            stage: self.stage@,
        }
    }
}

/// `p` with its stage replaced.
pub open spec fn at_stage(p: PipelineV, stage: StageV) -> PipelineV {
    PipelineV { stage, ..p }
}

/// A failure decision.
pub open spec fn failed(error: KeyCmdErrorV) -> StepV {
    StepV::Finish(RunOutcomeV::Failure { error })
}

/// The machine's whole transition relation: one component per step, any
/// failure straight to `Done`, and nothing but `Idle` out of `Done` or on
/// an event that does not belong to the stage.
pub open spec fn next_spec(p: PipelineV, e: EventV) -> (PipelineV, StepV) {
    match (p.stage, e) {
        (StageV::Init, EventV::TrustChecked(decision)) => match decision {
            TrustDecisionV::Trusted => (at_stage(p, StageV::TrustChecked), StepV::ReadConfig),
            TrustDecisionV::Untrusted(detail) => (
                at_stage(p, StageV::Done),
                failed(KeyCmdErrorV::Trust(TrustErrorV::Untrusted(detail))),
            ),
        },
        (StageV::TrustChecked, EventV::ConfigRead(text)) => match text {
            Some(t) => match load_config_spec(t) {
                Ok(cfg) => (at_stage(p, StageV::ConfigLoaded { cfg }), StepV::Proceed),
                Err(e) => (at_stage(p, StageV::Done), failed(KeyCmdErrorV::Config(e))),
            },
            None => (
                at_stage(p, StageV::Done),
                failed(KeyCmdErrorV::Config(ConfigErrorV::Unreadable)),
            ),
        },
        (StageV::ConfigLoaded { cfg }, EventV::Advance) => match parse_args_spec(p.args) {
            Ok(cmd) => (at_stage(p, StageV::ArgsParsed { cfg, cmd }), StepV::Proceed),
            Err(e) => (at_stage(p, StageV::Done), failed(KeyCmdErrorV::Arg(e))),
        },
        (StageV::ArgsParsed { cfg, cmd }, EventV::Advance) => (
            at_stage(p, StageV::RequestBuilt),
            StepV::CallServer {
                url: cfg.tms_url,
                request: build_request_spec(cmd, cfg, p.requestor_host, p.requestor_addr),
            },
        ),
        (StageV::RequestBuilt, EventV::ServerReplied(outcome)) => match outcome {
            Ok(raw) => match extract_spec(raw.status, raw.body) {
                Ok(key) => (at_stage(p, StageV::ResponseReceived { key }), StepV::Proceed),
                Err(e) => (at_stage(p, StageV::Done), failed(KeyCmdErrorV::Extract(e))),
            },
            Err(e) => (at_stage(p, StageV::Done), failed(KeyCmdErrorV::Transport(e))),
        },
        (StageV::ResponseReceived { key }, EventV::Advance) => (
            at_stage(p, StageV::Done),
            StepV::Finish(RunOutcomeV::Success { key }),
        ),
        _ => (at_stage(p, StageV::Done), StepV::Idle),
    }
}

/// The steps a run takes from `p` under the event sequence `events`.
pub open spec fn run_steps(p: PipelineV, events: Seq<EventV>) -> Seq<StepV>
    decreases events.len(),
{
    if events.len() == 0 {
        Seq::empty()
    } else {
        let next = next_spec(p, events[0]);
        seq![next.1] + run_steps(next.0, events.subrange(1, events.len() as int))
    }
}

/// The step asks for the single POST.
pub open spec fn calls_server(s: StepV) -> bool {
    s matches StepV::CallServer { .. }
}

/// The step asks for the configuration file to be read.
pub open spec fn reads_config(s: StepV) -> bool {
    s matches StepV::ReadConfig
}

/// The step ends the run successfully with a key on stdout.
pub open spec fn emits_key(s: StepV) -> bool {
    s matches StepV::Finish(RunOutcomeV::Success { key: Some(_) })
}

/// The step decides the run, one way or the other.
pub open spec fn decides(s: StepV) -> bool {
    s matches StepV::Finish(_)
}

/// LAW: once the run is decided nothing more happens — from `Done`, every
/// further step is `Idle`, whatever events arrive.
pub proof fn lemma_done_is_inert(p: PipelineV, events: Seq<EventV>)
    requires
        p.stage is Done,
    ensures
        forall|i: int|
            0 <= i < run_steps(p, events).len() ==> run_steps(p, events)[i] == StepV::Idle,
    decreases events.len(),
{
    if events.len() > 0 {
        let n = next_spec(p, events[0]);
        let rest = events.subrange(1, events.len() as int);
        assert(n.0.stage is Done && n.1 == StepV::Idle);
        lemma_done_is_inert(n.0, rest);
        assert forall|i: int|
            0 <= i < run_steps(p, events).len() implies run_steps(p, events)[i]
            == StepV::Idle by {
            if i > 0 {
                assert(run_steps(p, events)[i] == run_steps(n.0, rest)[i - 1]);
            }
        };
    }
}

/// A deciding step always leaves the machine in `Done`.
proof fn lemma_decision_reaches_done(p: PipelineV, e: EventV)
    ensures
        decides(next_spec(p, e).1) ==> next_spec(p, e).0.stage is Done,
{
}

/// LAW: one decision, then silence — wherever a trace's step decides the
/// run (a `Finish`, success or failure), every later step of that trace is
/// `Idle`: no second output, no late network call.
pub proof fn lemma_finish_is_final(p: PipelineV, events: Seq<EventV>)
    ensures
        forall|i: int, j: int|
            0 <= i < j < run_steps(p, events).len() && decides(run_steps(p, events)[i])
                ==> run_steps(p, events)[j] == StepV::Idle,
    decreases events.len(),
{
    if events.len() > 0 {
        let n = next_spec(p, events[0]);
        let rest = events.subrange(1, events.len() as int);
        lemma_decision_reaches_done(p, events[0]);
        lemma_finish_is_final(n.0, rest);
        assert forall|i: int, j: int|
            0 <= i < j < run_steps(p, events).len() && decides(run_steps(p, events)[i]) implies
            run_steps(p, events)[j] == StepV::Idle by {
            assert(run_steps(p, events)[j] == run_steps(n.0, rest)[j - 1]);
            if i == 0 {
                lemma_done_is_inert(n.0, rest);
            } else {
                assert(run_steps(p, events)[i] == run_steps(n.0, rest)[i - 1]);
            }
        };
    }
}

/// LAW: a configuration file that fails the trust check halts the run
/// before its contents are touched — the first step is the trust failure,
/// and no step of the whole run reads the file, calls the server, or
/// emits a key.
pub proof fn lemma_untrusted_halts_before_read(
    p: PipelineV,
    events: Seq<EventV>,
    detail: Seq<char>,
)
    requires
        p.stage is Init,
        events.len() > 0,
        events[0] == EventV::TrustChecked(TrustDecisionV::Untrusted(detail)),
    ensures
        run_steps(p, events)[0] == failed(KeyCmdErrorV::Trust(TrustErrorV::Untrusted(detail))),
        forall|i: int|
            0 <= i < run_steps(p, events).len() ==> !reads_config(run_steps(p, events)[i])
                && !calls_server(run_steps(p, events)[i]) && !emits_key(run_steps(p, events)[i]),
{
    let n = next_spec(p, events[0]);
    let rest = events.subrange(1, events.len() as int);
    lemma_done_is_inert(n.0, rest);
    assert forall|i: int|
        0 <= i < run_steps(p, events).len() implies !reads_config(run_steps(p, events)[i])
        && !calls_server(run_steps(p, events)[i]) && !emits_key(run_steps(p, events)[i]) by {
        if i > 0 {
            assert(run_steps(p, events)[i] == run_steps(n.0, rest)[i - 1]);
        }
    };
}

/// LAW: a configuration text that the loader rejects stops the run before
/// any network activity — the first step is the configuration failure,
/// and no step of the whole run calls the server or emits a key.
pub proof fn lemma_bad_config_never_calls_server(
    p: PipelineV,
    events: Seq<EventV>,
    text: Seq<char>,
    e: ConfigErrorV,
)
    requires
        p.stage is TrustChecked,
        events.len() > 0,
        events[0] == EventV::ConfigRead(Some(text)),
        load_config_spec(text) == Err::<ConfigV, ConfigErrorV>(e),
    ensures
        run_steps(p, events)[0] == failed(KeyCmdErrorV::Config(e)),
        forall|i: int|
            0 <= i < run_steps(p, events).len() ==> !calls_server(run_steps(p, events)[i])
                && !emits_key(run_steps(p, events)[i]),
{
    let n = next_spec(p, events[0]);
    let rest = events.subrange(1, events.len() as int);
    lemma_done_is_inert(n.0, rest);
    assert forall|i: int|
        0 <= i < run_steps(p, events).len() implies !calls_server(run_steps(p, events)[i])
        && !emits_key(run_steps(p, events)[i]) by {
        if i > 0 {
            assert(run_steps(p, events)[i] == run_steps(n.0, rest)[i - 1]);
        }
    };
}

/// LAW: a successful finish carries exactly the key recorded when the
/// response was extracted; no other stage can produce one.
pub proof fn lemma_key_only_from_response(p: PipelineV, e: EventV)
    ensures
        next_spec(p, e).1 matches StepV::Finish(RunOutcomeV::Success { key }) ==> p.stage == (
        StageV::ResponseReceived { key }),
{
}

/// LAW: the recorded key comes only from extracting a completed exchange —
/// the machine reaches `ResponseReceived { key }` only through a
/// `ServerReplied` event whose exchange the extractor accepted with
/// exactly that key.
pub proof fn lemma_response_only_from_extraction(p: PipelineV, e: EventV)
    ensures
        next_spec(p, e).0.stage matches StageV::ResponseReceived { key } ==> {
            &&& p.stage is RequestBuilt
            &&& e matches EventV::ServerReplied(res)
            &&& res matches Ok(raw)
            &&& extract_spec(raw.status, raw.body) == Ok::<Option<Seq<char>>, ExtractErrorV>(key)
        },
{
}

fn clone_opt_string(o: &Option<String>) -> (r: Option<String>)
    ensures
        r == *o,
{
    match o {
        Some(s) => Some(s.clone()),
        None => None,
    }
}

impl Pipeline {
    /// Starts a run over the raw argument vector, with the local host
    /// identity when known; the first thing to do is the trust check.
    pub fn new(
        args: Vec<String>,
        requestor_host: Option<String>,
        requestor_addr: Option<String>,
    ) -> (r: (Pipeline, Step))
        ensures
            r.0@ == (PipelineV {
                args: args.deep_view(),
                requestor_host: requestor_host.deep_view(),
                requestor_addr: requestor_addr.deep_view(),
                stage: StageV::Init,
            }),
            r.1@ == StepV::CheckTrust,
    {
        (Pipeline { args, requestor_host, requestor_addr, stage: Stage::Init }, Step::CheckTrust)
    }

    /// One transition: consumes the machine and the event, returns the
    /// moved machine and what to do next, exactly as `next_spec` says.
    pub fn step(self, event: Event) -> (r: (Pipeline, Step))
        ensures
            (r.0@, r.1@) == next_spec(self@, event@),
    {
        let Pipeline { args, requestor_host, requestor_addr, stage } = self;
        match (stage, event) {
            (Stage::Init, Event::TrustChecked(decision)) => match decision {
                TrustDecision::Trusted => (
                    Pipeline { args, requestor_host, requestor_addr, stage: Stage::TrustChecked },
                    Step::ReadConfig,
                ),
                TrustDecision::Untrusted(detail) => (
                    Pipeline { args, requestor_host, requestor_addr, stage: Stage::Done },
                    Step::Finish(
                        RunOutcome::Failure {
                            error: KeyCmdError::Trust(TrustError::Untrusted(detail)),
                        },
                    ),
                ),
            },
            (Stage::TrustChecked, Event::ConfigRead(text)) => match text {
                Some(t) => match load_config(t.as_str()) {
                    Ok(cfg) => (
                        Pipeline {
                            args,
                            requestor_host,
                            requestor_addr,
                            stage: Stage::ConfigLoaded { cfg },
                        },
                        Step::Proceed,
                    ),
                    Err(e) => (
                        Pipeline { args, requestor_host, requestor_addr, stage: Stage::Done },
                        Step::Finish(RunOutcome::Failure { error: KeyCmdError::Config(e) }),
                    ),
                },
                None => (
                    Pipeline { args, requestor_host, requestor_addr, stage: Stage::Done },
                    Step::Finish(
                        RunOutcome::Failure {
                            error: KeyCmdError::Config(ConfigError::Unreadable),
                        },
                    ),
                ),
            },
            (Stage::ConfigLoaded { cfg }, Event::Advance) => match parse_args(args.as_slice()) {
                Ok(cmd) => (
                    Pipeline {
                        args,
                        requestor_host,
                        requestor_addr,
                        stage: Stage::ArgsParsed { cfg, cmd },
                    },
                    Step::Proceed,
                ),
                Err(e) => (
                    Pipeline { args, requestor_host, requestor_addr, stage: Stage::Done },
                    Step::Finish(RunOutcome::Failure { error: KeyCmdError::Arg(e) }),
                ),
            },
            (Stage::ArgsParsed { cfg, cmd }, Event::Advance) => {
                let rh = clone_opt_string(&requestor_host);
                let ra = clone_opt_string(&requestor_addr);
                let request = build_request(&cmd, &cfg, rh, ra);
                (
                    Pipeline { args, requestor_host, requestor_addr, stage: Stage::RequestBuilt },
                    Step::CallServer { url: cfg.tms_url, request },
                )
            },
            (Stage::RequestBuilt, Event::ServerReplied(outcome)) => match outcome {
                Ok(raw) => match extract_response(&raw) {
                    Ok(key) => (
                        Pipeline {
                            args,
                            requestor_host,
                            requestor_addr,
                            stage: Stage::ResponseReceived { key },
                        },
                        Step::Proceed,
                    ),
                    Err(e) => (
                        Pipeline { args, requestor_host, requestor_addr, stage: Stage::Done },
                        Step::Finish(RunOutcome::Failure { error: KeyCmdError::Extract(e) }),
                    ),
                },
                Err(e) => (
                    Pipeline { args, requestor_host, requestor_addr, stage: Stage::Done },
                    Step::Finish(RunOutcome::Failure { error: KeyCmdError::Transport(e) }),
                ),
            },
            (Stage::ResponseReceived { key }, Event::Advance) => (
                Pipeline { args, requestor_host, requestor_addr, stage: Stage::Done },
                Step::Finish(RunOutcome::Success { key }),
            ),
            (_, _) => (
                Pipeline { args, requestor_host, requestor_addr, stage: Stage::Done },
                Step::Idle,
            ),
        }
    }
}

} // verus!
