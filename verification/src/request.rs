//! Request building: the key-lookup request sent to the TMS server is
//! assembled from the validated arguments, the configuration and, when
//! known, the local host identity, then framed as one JSON object.

use vstd::prelude::*;
use crate::args::CmdArgsV;
use crate::args::CmdArgs;
use crate::chars::u32_dec_digits;
use crate::chars::u32_to_dec_string;
use crate::config::Config;
use crate::config::ConfigV;
use crate::json::append_json_escaped;
use crate::json::json_escape;
use crate::json::lemma_scan_escaped;
use crate::json::scan_json_string;

verus! {

/// The key-lookup request body, serialized once and never mutated.
pub struct ReqPubKey {
    pub user: String,
    pub user_uid: String,
    pub host: String,
    pub public_key_fingerprint: String,
    pub key_type: String,
    pub requestor_host: Option<String>,
    pub requestor_addr: Option<String>,
}

/// Mathematical image of `ReqPubKey`.
pub struct ReqPubKeyV {
    pub user: Seq<char>,
    pub user_uid: Seq<char>,
    pub host: Seq<char>,
    pub public_key_fingerprint: Seq<char>,
    pub key_type: Seq<char>,
    pub requestor_host: Option<Seq<char>>,
    pub requestor_addr: Option<Seq<char>>,
}

impl View for ReqPubKey {
    type V = ReqPubKeyV;

    open spec fn view(&self) -> ReqPubKeyV {
        ReqPubKeyV {
            user: self.user@,
            user_uid: self.user_uid@,
            host: self.host@,
            public_key_fingerprint: self.public_key_fingerprint@,
            key_type: self.key_type@,
            requestor_host: self.requestor_host.deep_view(),
            requestor_addr: self.requestor_addr.deep_view(),
        }
    }
}

/// What `build_request` returns: the username, fingerprint and key type
/// carried over verbatim, the uid written in decimal, the host taken from
/// the configuration, and the optional requestor identity attached when
/// known.
pub open spec fn build_request_spec(
    a: CmdArgsV,
    cfg: ConfigV,
    requestor_host: Option<Seq<char>>,
    requestor_addr: Option<Seq<char>>,
) -> ReqPubKeyV {
    ReqPubKeyV {
        user: a.username,
        user_uid: u32_dec_digits(a.userid as nat),
        host: cfg.host_name,
        public_key_fingerprint: a.fingerprint,
        key_type: a.keytype,
        requestor_host,
        requestor_addr,
    }
}

/// Builds the outbound request.  Pure: no I/O, no validation beyond what
/// the argument types already guarantee; a missing local identity must not
/// block the request, so both of its parts are optional.
pub fn build_request(
    args: &CmdArgs,
    cfg: &Config,
    requestor_host: Option<String>,
    requestor_addr: Option<String>,
) -> (r: ReqPubKey)
    ensures
        r@ == build_request_spec(
            args@,
            cfg@,
            requestor_host.deep_view(),
            requestor_addr.deep_view(),
        ),
{
    let ghost rh = requestor_host.deep_view();
    let ghost ra = requestor_addr.deep_view();
    ReqPubKey {
        user: args.username.clone(),
        user_uid: u32_to_dec_string(args.userid),
        host: cfg.host_name.clone(),
        public_key_fingerprint: args.fingerprint.clone(),
        key_type: args.keytype.clone(),
        requestor_host,
        requestor_addr,
    }
}

/// The JSON object text of a request: fixed member names in a fixed
/// order, every value a JSON string literal, the two requestor members
/// present only when their value is.
pub open spec fn req_json(r: ReqPubKeyV) -> Seq<char> {
    "{\"user\":\""@ + json_escape(r.user) + "\",\"user_uid\":\""@ + json_escape(r.user_uid)
        + "\",\"host\":\""@ + json_escape(r.host) + "\",\"public_key_fingerprint\":\""@
        + json_escape(r.public_key_fingerprint) + "\",\"key_type\":\""@ + json_escape(r.key_type)
        + (match r.requestor_host {
        Some(h) => "\",\"requestor_host\":\""@ + json_escape(h),
        None => Seq::<char>::empty(),
    }) + (match r.requestor_addr {
        Some(a) => "\",\"requestor_addr\":\""@ + json_escape(a),
        None => Seq::<char>::empty(),
    }) + "\"}"@
}

/// Strips a known leading chunk of text, or rejects.
pub open spec fn expect_chunk(s: Seq<char>, chunk: Seq<char>) -> Option<Seq<char>> {
    if chunk.len() <= s.len() && s.subrange(0, chunk.len() as int) == chunk {
        Some(s.subrange(chunk.len() as int, s.len() as int))
    } else {
        None
    }
}

/// Reads one member: the fixed text between the previous member's closing
/// quote and this member's opening quote, then the string value.
pub open spec fn read_member(s: Seq<char>, chunk: Seq<char>) -> Option<(Seq<char>, Seq<char>)> {
    match expect_chunk(s, chunk) {
        Some(t) => scan_json_string(t),
        None => None,
    }
}

/// Reads what may follow the last fixed member: nothing, a requestor
/// host, a requestor address, or both, then the closing brace.
pub open spec fn read_requestors(s: Seq<char>) -> Option<
    (Option<Seq<char>>, Option<Seq<char>>),
> {
    if s == seq!['}'] {
        Some((None, None))
    } else {
        match read_member(s, ",\"requestor_host\":\""@) {
            Some(h) => if h.1 == seq!['}'] {
                Some((Some(h.0), None))
            } else {
                match read_member(h.1, ",\"requestor_addr\":\""@) {
                    Some(a) => if a.1 == seq!['}'] {
                        Some((Some(h.0), Some(a.0)))
                    } else {
                        None
                    },
                    None => None,
                }
            },
            None => match read_member(s, ",\"requestor_addr\":\""@) {
                Some(a) => if a.1 == seq!['}'] {
                    Some((None, Some(a.0)))
                } else {
                    None
                },
                None => None,
            },
        }
    }
}

/// Reads back the JSON object that `req_json` writes: the five fixed
/// members in their fixed order, then the optional requestor members,
/// then the closing brace.
pub open spec fn parse_req_json(s: Seq<char>) -> Option<ReqPubKeyV> {
    match read_member(s, "{\"user\":\""@) {
        None => None,
        Some(user) => match read_member(user.1, ",\"user_uid\":\""@) {
            None => None,
            Some(uid) => match read_member(uid.1, ",\"host\":\""@) {
                None => None,
                Some(host) => match read_member(host.1, ",\"public_key_fingerprint\":\""@) {
                    None => None,
                    Some(fp) => match read_member(fp.1, ",\"key_type\":\""@) {
                        None => None,
                        Some(kt) => match read_requestors(kt.1) {
                            None => None,
                            Some(opts) => Some(
                                ReqPubKeyV {
                                    user: user.0,
                                    user_uid: uid.0,
                                    host: host.0,
                                    public_key_fingerprint: fp.0,
                                    key_type: kt.0,
                                    requestor_host: opts.0,
                                    requestor_addr: opts.1,
                                },
                            ),
                        },
                    },
                },
            },
        },
    }
}

/// Stripping a chunk off text that begins with it leaves the remainder.
proof fn lemma_expect_chunk(chunk: Seq<char>, rest: Seq<char>)
    ensures
        expect_chunk(chunk + rest, chunk) == Some(rest),
{
    let s = chunk + rest;
    assert(s.subrange(0, chunk.len() as int) =~= chunk);
    assert(s.subrange(chunk.len() as int, s.len() as int) =~= rest);
}

/// Reading a member off text shaped as one finds its value and remainder.
proof fn lemma_read_member(chunk: Seq<char>, x: Seq<char>, rest: Seq<char>)
    ensures
        read_member(chunk + (json_escape(x) + (seq!['"'] + rest)), chunk) == Some((x, rest)),
{
    lemma_expect_chunk(chunk, json_escape(x) + (seq!['"'] + rest));
    lemma_scan_escaped(x, rest);
}

/// LAW: round trip — the JSON text written for a request reads back to a
/// request with exactly the same field values, whichever of the optional
/// requestor members are present.
pub proof fn lemma_req_json_roundtrip(r: ReqPubKeyV)
    ensures
        parse_req_json(req_json(r)) == Some(r),
{
    let q = seq!['"'];
    let s = req_json(r);
    proof_req_json_shape(r);
    let t_opts = opts_text(r.requestor_host, r.requestor_addr);
    let t5 = ",\"key_type\":\""@ + (json_escape(r.key_type) + (q + t_opts));
    let t4 = ",\"public_key_fingerprint\":\""@ + (json_escape(r.public_key_fingerprint) + (q
        + t5));
    let t3 = ",\"host\":\""@ + (json_escape(r.host) + (q + t4));
    let t2 = ",\"user_uid\":\""@ + (json_escape(r.user_uid) + (q + t3));
    let t1 = "{\"user\":\""@ + (json_escape(r.user) + (q + t2));
    assert(s == t1);
    lemma_read_member("{\"user\":\""@, r.user, t2);
    lemma_read_member(",\"user_uid\":\""@, r.user_uid, t3);
    lemma_read_member(",\"host\":\""@, r.host, t4);
    lemma_read_member(",\"public_key_fingerprint\":\""@, r.public_key_fingerprint, t5);
    lemma_read_member(",\"key_type\":\""@, r.key_type, t_opts);
    proof_read_requestors(r.requestor_host, r.requestor_addr);
}

/// The text that follows the last fixed member's closing quote.
spec fn opts_text(rh: Option<Seq<char>>, ra: Option<Seq<char>>) -> Seq<char> {
    let q = seq!['"'];
    match (rh, ra) {
        (None, None) => "}"@,
        (Some(h), None) => ",\"requestor_host\":\""@ + (json_escape(h) + (q + "}"@)),
        (None, Some(a)) => ",\"requestor_addr\":\""@ + (json_escape(a) + (q + "}"@)),
        (Some(h), Some(a)) => ",\"requestor_host\":\""@ + (json_escape(h) + (q + (
        ",\"requestor_addr\":\""@ + (json_escape(a) + (q + "}"@))))),
    }
}

/// Concatenation is associative.
proof fn lemma_assoc3(a: Seq<char>, b: Seq<char>, c: Seq<char>)
    ensures
        (a + b) + c == a + (b + c),
{
    assert((a + b) + c =~= a + (b + c));
}

/// A tail moves inside a two-step left-nested concatenation.
proof fn lemma_push2(x: Seq<char>, a: Seq<char>, b: Seq<char>, t: Seq<char>)
    ensures
        ((x + a) + b) + t == x + (a + (b + t)),
{
    assert(((x + a) + b) + t =~= x + (a + (b + t)));
}

/// The serialized text is the right-nested decomposition the reader walks.
proof fn proof_req_json_shape(r: ReqPubKeyV)
    ensures
        req_json(r) == "{\"user\":\""@ + (json_escape(r.user) + (seq!['"'] + (",\"user_uid\":\""@
            + (json_escape(r.user_uid) + (seq!['"'] + (",\"host\":\""@ + (json_escape(r.host) + (
        seq!['"'] + (",\"public_key_fingerprint\":\""@ + (json_escape(r.public_key_fingerprint) + (
        seq!['"'] + (",\"key_type\":\""@ + (json_escape(r.key_type) + (seq!['"'] + opts_text(
            r.requestor_host,
            r.requestor_addr,
        ))))))))))))))),
{
    reveal_strlit("\",\"user_uid\":\"");
    reveal_strlit(",\"user_uid\":\"");
    reveal_strlit("\",\"host\":\"");
    reveal_strlit(",\"host\":\"");
    reveal_strlit("\",\"public_key_fingerprint\":\"");
    reveal_strlit(",\"public_key_fingerprint\":\"");
    reveal_strlit("\",\"key_type\":\"");
    reveal_strlit(",\"key_type\":\"");
    reveal_strlit("\",\"requestor_host\":\"");
    reveal_strlit(",\"requestor_host\":\"");
    reveal_strlit("\",\"requestor_addr\":\"");
    reveal_strlit(",\"requestor_addr\":\"");
    reveal_strlit("\"}");
    reveal_strlit("}");
    let q = seq!['"'];
    assert("\",\"user_uid\":\""@ =~= q + ",\"user_uid\":\""@);
    assert("\",\"host\":\""@ =~= q + ",\"host\":\""@);
    assert("\",\"public_key_fingerprint\":\""@ =~= q + ",\"public_key_fingerprint\":\""@);
    assert("\",\"key_type\":\""@ =~= q + ",\"key_type\":\""@);
    assert("\",\"requestor_host\":\""@ =~= q + ",\"requestor_host\":\""@);
    assert("\",\"requestor_addr\":\""@ =~= q + ",\"requestor_addr\":\""@);
    assert("\"}"@ =~= q + "}"@);
    let e1 = json_escape(r.user);
    let e2 = json_escape(r.user_uid);
    let e3 = json_escape(r.host);
    let e4 = json_escape(r.public_key_fingerprint);
    let e5 = json_escape(r.key_type);
    let opt1 = match r.requestor_host {
        Some(h) => "\",\"requestor_host\":\""@ + json_escape(h),
        None => Seq::<char>::empty(),
    };
    let opt2 = match r.requestor_addr {
        Some(a) => "\",\"requestor_addr\":\""@ + json_escape(a),
        None => Seq::<char>::empty(),
    };
    let x1 = "{\"user\":\""@ + e1;
    let x2 = (x1 + "\",\"user_uid\":\""@) + e2;
    let x3 = (x2 + "\",\"host\":\""@) + e3;
    let x4 = (x3 + "\",\"public_key_fingerprint\":\""@) + e4;
    let base = (x4 + "\",\"key_type\":\""@) + e5;
    assert(req_json(r) == ((base + opt1) + opt2) + "\"}"@);
    lemma_push2(base, opt1, opt2, "\"}"@);
    let t_opts = opts_text(r.requestor_host, r.requestor_addr);
    match (r.requestor_host, r.requestor_addr) {
        (None, None) => {
            assert(opt1 + (opt2 + "\"}"@) =~= q + t_opts);
        },
        (Some(h), None) => {
            assert(opt1 + (opt2 + "\"}"@) =~= q + t_opts);
        },
        (None, Some(a)) => {
            assert(opt1 + (opt2 + "\"}"@) =~= q + t_opts);
        },
        (Some(h), Some(a)) => {
            assert(opt1 + (opt2 + "\"}"@) =~= q + t_opts);
        },
    }
    assert(req_json(r) == base + (q + t_opts));
    let t5 = ",\"key_type\":\""@ + (e5 + (q + t_opts));
    lemma_push2(x4, "\",\"key_type\":\""@, e5, q + t_opts);
    lemma_assoc3(q, ",\"key_type\":\""@, e5 + (q + t_opts));
    assert(req_json(r) == x4 + (q + t5));
    let t4 = ",\"public_key_fingerprint\":\""@ + (e4 + (q + t5));
    lemma_push2(x3, "\",\"public_key_fingerprint\":\""@, e4, q + t5);
    lemma_assoc3(q, ",\"public_key_fingerprint\":\""@, e4 + (q + t5));
    assert(req_json(r) == x3 + (q + t4));
    let t3 = ",\"host\":\""@ + (e3 + (q + t4));
    lemma_push2(x2, "\",\"host\":\""@, e3, q + t4);
    lemma_assoc3(q, ",\"host\":\""@, e3 + (q + t4));
    assert(req_json(r) == x2 + (q + t3));
    let t2 = ",\"user_uid\":\""@ + (e2 + (q + t3));
    lemma_push2(x1, "\",\"user_uid\":\""@, e2, q + t3);
    lemma_assoc3(q, ",\"user_uid\":\""@, e2 + (q + t3));
    assert(req_json(r) == x1 + (q + t2));
    lemma_assoc3("{\"user\":\""@, e1, q + t2);
    assert(req_json(r) == "{\"user\":\""@ + (e1 + (q + t2)));
}

/// Reading the optional members off their own text finds exactly them.
proof fn proof_read_requestors(rh: Option<Seq<char>>, ra: Option<Seq<char>>)
    ensures
        read_requestors(opts_text(rh, ra)) == Some((rh, ra)),
{
    reveal_strlit(",\"requestor_host\":\"");
    reveal_strlit(",\"requestor_addr\":\"");
    reveal_strlit("}");
    let q = seq!['"'];
    let brace = "}"@;
    assert(brace =~= seq!['}']);
    let ch = ",\"requestor_host\":\""@;
    let ca = ",\"requestor_addr\":\""@;
    assert(ch[12] == 'h');
    assert(ca[12] == 'a');
    match (rh, ra) {
        (None, None) => {
            assert(opts_text(rh, ra) == seq!['}']);
        },
        (Some(h), None) => {
            let s = opts_text(rh, ra);
            assert(s.len() > 1);
            lemma_read_member(ch, h, brace);
        },
        (None, Some(a)) => {
            let s = opts_text(rh, ra);
            assert(s.len() > 1);
            assert(s.subrange(0, ch.len() as int)[12] == 'a');
            assert(expect_chunk(s, ch) is None);
            lemma_read_member(ca, a, brace);
        },
        (Some(h), Some(a)) => {
            let s = opts_text(rh, ra);
            assert(s.len() > 1);
            let tail = ca + (json_escape(a) + (q + brace));
            lemma_read_member(ch, h, tail);
            assert(tail.len() > 1);
            lemma_read_member(ca, a, brace);
        },
    }
}

/// LAW: round trip for a built request — the JSON written for the request
/// built from any validated arguments, configuration and local identity
/// reads back to exactly that request's field values.
pub proof fn lemma_built_request_roundtrip(
    a: CmdArgsV,
    cfg: ConfigV,
    requestor_host: Option<Seq<char>>,
    requestor_addr: Option<Seq<char>>,
)
    ensures
        parse_req_json(req_json(build_request_spec(a, cfg, requestor_host, requestor_addr)))
            == Some(build_request_spec(a, cfg, requestor_host, requestor_addr)),
{
    lemma_req_json_roundtrip(build_request_spec(a, cfg, requestor_host, requestor_addr));
}

/// LAW: the serialization is injective — two requests with the same JSON
/// text have the same field values.
pub proof fn lemma_req_json_injective(r1: ReqPubKeyV, r2: ReqPubKeyV)
    requires
        req_json(r1) == req_json(r2),
    ensures
        r1 == r2,
{
    lemma_req_json_roundtrip(r1);
    lemma_req_json_roundtrip(r2);
}

/// Serializes the request as one JSON object, exactly `req_json`.
pub fn to_json(req: &ReqPubKey) -> (r: String)
    ensures
        r@ == req_json(req@),
{
    let mut out = String::new();
    proof {
        assert(out@ + "{\"user\":\""@ =~= "{\"user\":\""@);
    }
    out.append("{\"user\":\"");
    append_json_escaped(&mut out, req.user.as_str());
    out.append("\",\"user_uid\":\"");
    append_json_escaped(&mut out, req.user_uid.as_str());
    out.append("\",\"host\":\"");
    append_json_escaped(&mut out, req.host.as_str());
    out.append("\",\"public_key_fingerprint\":\"");
    append_json_escaped(&mut out, req.public_key_fingerprint.as_str());
    out.append("\",\"key_type\":\"");
    append_json_escaped(&mut out, req.key_type.as_str());
    let ghost mid = out@;
    match &req.requestor_host {
        Some(h) => {
            out.append("\",\"requestor_host\":\"");
            append_json_escaped(&mut out, h.as_str());
        },
        None => {
            proof {
                assert(out@ =~= mid + Seq::<char>::empty());
            }
        },
    }
    let ghost mid2 = out@;
    match &req.requestor_addr {
        Some(a) => {
            out.append("\",\"requestor_addr\":\"");
            append_json_escaped(&mut out, a.as_str());
        },
        None => {
            proof {
                assert(out@ =~= mid2 + Seq::<char>::empty());
            }
        },
    }
    out.append("\"}");
    proof {
        assert(out@ =~= req_json(req@));
    }
    out
}

} // verus!
