//! Configuration trust checking: a configuration file must be proved
//! safely owned and permissioned before anything reads it.  The filesystem
//! inspection is done by an outside checker; this module only carries its
//! verdict, which the pipeline consumes before any read.

use vstd::prelude::*;

verus! {

/// The verdict on one configuration file, computed fresh per file and
/// never cached.
#[derive(Debug)]
pub enum TrustDecision {
    /// The file exists, is a regular file, and is owned and permissioned
    /// acceptably.
    Trusted,
    /// Anything else; carries the checker's diagnostic.
    Untrusted(String),
}

/// Mathematical image of `TrustDecision`.
pub enum TrustDecisionV {
    Trusted,
    Untrusted(Seq<char>),
}

impl View for TrustDecision {
    type V = TrustDecisionV;

    open spec fn view(&self) -> TrustDecisionV {
        match self {
            TrustDecision::Trusted => TrustDecisionV::Trusted,
            TrustDecision::Untrusted(detail) => TrustDecisionV::Untrusted(detail@),
        }
    }
}

/// A rejected trust check, in the pipeline's error taxonomy.
#[derive(Debug)]
pub enum TrustError {
    /// The file is missing, not a regular file, writable beyond the trust
    /// group, or wrongly owned; carries the checker's diagnostic.
    Untrusted(String),
}

/// Mathematical image of `TrustError`.
pub enum TrustErrorV {
    Untrusted(Seq<char>),
}

impl View for TrustError {
    type V = TrustErrorV;

    open spec fn view(&self) -> TrustErrorV {
        match self {
            TrustError::Untrusted(detail) => TrustErrorV::Untrusted(detail@),
        }
    }
}

/// The diagnostic prefix of `TrustError::Untrusted`.
pub open spec fn msg_untrusted() -> Seq<char> {
    "Mistrust check on config file failed: "@
}

impl TrustError {
    /// A diagnostic line for the log; never written to stdout.
    pub fn message(&self) -> (r: String)
        ensures
            (*self) matches TrustError::Untrusted(d) ==> r@ == msg_untrusted() + d@,
    {
        match self {
            TrustError::Untrusted(detail) => {
                let mut m = "Mistrust check on config file failed: ".to_owned();
                m.append(detail.as_str());
                m
            },
        }
    }
}

/// Relies on `fs_mistrust::Mistrust`: builds a checker that ignores the
/// working directory prefix and trusts only group 0, then requires
/// `file_name` under `work_dir` to be an existing regular file that no
/// untrusted principal can modify.  The outcome depends on what is on
/// disk, so nothing is promised of it.
#[verifier::external_body]
fn mistrust_check_file(work_dir: &str, file_name: &str) -> (r: Result<(), String>) {
    let dir = std::path::Path::new(work_dir);
    let mistrust = match fs_mistrust::Mistrust::builder().ignore_prefix(dir).trust_group(
        0,
    ).build() {
        Ok(m) => m,
        Err(e) => return Err(format!("{e}")),
    };
    match mistrust.verifier().require_file().check(dir.join(file_name)) {
        Ok(()) => Ok(()),
        Err(e) => Err(format!("{e}")),
    }
}

/// Checks that the file may be trusted before it is read.  The decision
/// comes from the filesystem as it is at the moment of the call, so no
/// more can be said of it; the pipeline halts on anything but `Trusted`
/// without reading the file.
pub fn verify_config_trust(work_dir: &str, file_name: &str) -> (r: TrustDecision) {
    match mistrust_check_file(work_dir, file_name) {
        Ok(()) => TrustDecision::Trusted,
        Err(detail) => TrustDecision::Untrusted(detail),
    }
}

} // verus!
