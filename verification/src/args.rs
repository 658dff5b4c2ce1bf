//! Argument validation: the 4- or 5-argument invocation vector is checked
//! for arity and the numeric user id is parsed, everything else is kept as
//! an opaque string (untrusted input is never interpreted as a path or a
//! command, only forwarded as a request field).

use vstd::prelude::*;
use crate::chars::dec_str_to_u32;
use crate::chars::parse_u32_dec;
use crate::chars::trim_spec;
use crate::chars::trim_str;

verus! {

/// Validated invocation arguments, created once per process and immutable
/// thereafter.
pub struct CmdArgs {
    pub username: String,
    pub userid: u32,
    pub home_dir: Option<String>,
    pub fingerprint: String,
    pub keytype: String,
}

/// Mathematical image of `CmdArgs`.
pub struct CmdArgsV {
    pub username: Seq<char>,
    pub userid: u32,
    pub home_dir: Option<Seq<char>>,
    pub fingerprint: Seq<char>,
    pub keytype: Seq<char>,
}

impl View for CmdArgs {
    type V = CmdArgsV;

    open spec fn view(&self) -> CmdArgsV {
        CmdArgsV {
            username: self.username@,
            userid: self.userid,
            home_dir: self.home_dir.deep_view(),
            fingerprint: self.fingerprint@,
            keytype: self.keytype@,
        }
    }
}

/// Why an argument vector was rejected.
#[derive(Debug)]
pub enum ArgError {
    /// The vector's length is neither 5 (program name plus 4 arguments)
    /// nor 6 (with a home directory); carries the expected and actual
    /// lengths.
    WrongArity(usize, usize),
    /// The userid argument is not a base-10 unsigned 32-bit integer;
    /// carries the raw argument.
    InvalidUserId(String),
}

/// Mathematical image of `ArgError`.
pub enum ArgErrorV {
    WrongArity(int, int),
    InvalidUserId(Seq<char>),
}

impl View for ArgError {
    type V = ArgErrorV;

    open spec fn view(&self) -> ArgErrorV {
        match self {
            ArgError::WrongArity(expected, got) => ArgErrorV::WrongArity(
                *expected as int,
                *got as int,
            ),
            ArgError::InvalidUserId(raw) => ArgErrorV::InvalidUserId(raw@),
        }
    }
}

/// The diagnostic line of `ArgError::WrongArity`.
pub open spec fn msg_wrong_arity() -> Seq<char> {
    "Incorrect number of arguments. Please provide 4 or 5 arguments."@
}

/// The diagnostic line of `ArgError::InvalidUserId`.
pub open spec fn msg_invalid_userid() -> Seq<char> {
    "userid must be a number"@
}

impl ArgError {
    /// A diagnostic line for the log; never written to stdout.
    pub fn message(&self) -> (r: String)
        ensures
            (*self) matches ArgError::WrongArity(_, _) ==> r@ == msg_wrong_arity(),
            (*self) matches ArgError::InvalidUserId(_) ==> r@ == msg_invalid_userid(),
    {
        match self {
            ArgError::WrongArity(_, _) => "Incorrect number of arguments. Please provide 4 or 5 arguments.".to_owned(),
            ArgError::InvalidUserId(_) => "userid must be a number".to_owned(),
        }
    }
}

/// What `parse_args` returns: the vector (program name included) must have
/// exactly 5 or 6 elements, and the third must be a base-10 unsigned
/// 32-bit integer after trimming; every other field is taken verbatim.
pub open spec fn parse_args_spec(args: Seq<Seq<char>>) -> Result<CmdArgsV, ArgErrorV> {
    if args.len() != 5 && args.len() != 6 {
        Err(ArgErrorV::WrongArity(5, args.len() as int))
    } else {
        match dec_str_to_u32(trim_spec(args[2])) {
            Some(uid) => Ok(
                CmdArgsV {
                    username: args[1],
                    userid: uid,
                    home_dir: if args.len() == 6 {
                        Some(args[3])
                    } else {
                        None
                    },
                    fingerprint: if args.len() == 6 {
                        args[4]
                    } else {
                        args[3]
                    },
                    keytype: if args.len() == 6 {
                        args[5]
                    } else {
                        args[4]
                    },
                },
            ),
            None => Err(ArgErrorV::InvalidUserId(args[2])),
        }
    }
}

/// Validates the raw argument vector (program name at index 0).  Fails
/// with `WrongArity` on any length other than 5 or 6 and with
/// `InvalidUserId` when the userid argument does not parse; on success
/// every field is exactly the corresponding argument.
pub fn parse_args(args: &[String]) -> (r: Result<CmdArgs, ArgError>)
    ensures
        match r {
            Ok(c) => parse_args_spec(args.deep_view()) == Ok::<CmdArgsV, ArgErrorV>(c@),
            Err(e) => parse_args_spec(args.deep_view()) == Err::<CmdArgsV, ArgErrorV>(e@),
        },
{
    let n = args.len();
    if n != 5 && n != 6 {
        return Err(ArgError::WrongArity(5, n));
    }
    let uid_trimmed = trim_str(args[2].as_str());
    let userid = match parse_u32_dec(uid_trimmed) {
        Some(u) => u,
        None => {
            return Err(ArgError::InvalidUserId(args[2].clone()));
        },
    };
    if n == 6 {
        Ok(
            CmdArgs {
                username: args[1].clone(),
                userid,
                home_dir: Some(args[3].clone()),
                fingerprint: args[4].clone(),
                keytype: args[5].clone(),
            },
        )
    } else {
        Ok(
            CmdArgs {
                username: args[1].clone(),
                userid,
                home_dir: None,
                fingerprint: args[3].clone(),
                keytype: args[4].clone(),
            },
        )
    }
}

} // verus!
