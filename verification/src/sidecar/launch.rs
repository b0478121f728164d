//! Where a session worker is found and how it is launched.
//!
//! The caller looks at the file system and at the environment; what it found is
//! decided here.

use vstd::prelude::*;
use crate::error::{ErrorKind, Failure};
use crate::text::text_of;

verus! {

/// What looking for the worker script at one location gave.
#[derive(Debug, Clone)]
pub enum PathProbe {
    /// The directory to start from could not be asked for; the text is the system's
    /// description of the error.
    Failed(String),
    /// The directory to start from has no parent.
    NoParent,
    /// A location: its text where it is valid Unicode, the form in which it is shown
    /// in messages, and whether a file is there.
    Candidate { text: Option<String>, shown: String, exists: bool },
}

/// A probe as plain values.
pub enum ProbeView {
    Failed(Seq<char>),
    NoParent,
    Candidate { text: Option<Seq<char>>, shown: Seq<char>, exists: bool },
}

impl View for PathProbe {
    type V = ProbeView;

    open spec fn view(&self) -> ProbeView {
        match *self {
            PathProbe::Failed(description) => ProbeView::Failed(description@),
            PathProbe::NoParent => ProbeView::NoParent,
            PathProbe::Candidate { text, shown, exists } => ProbeView::Candidate {
                text: text_of(text),
                shown: shown@,
                exists,
            },
        }
    }
}

/// The path of a location that was found, or the complaint about its encoding.
pub open spec fn found_path(text: Option<Seq<char>>) -> Result<Seq<char>, Seq<char>> {
    match text {
        Some(path) => Ok(path),
        None => Err("Invalid path encoding"@),
    }
}

/// The worker script's path, or the message that says why there is none. The
/// development tree is looked at first, then the directory of the running executable;
/// where the script is at neither, the message names both locations.
pub open spec fn resolved_path(dev: ProbeView, exe: ProbeView) -> Result<Seq<char>, Seq<char>> {
    match dev {
        ProbeView::Failed(description) => Err(description),
        ProbeView::NoParent => Err("Cannot resolve parent directory"@),
        ProbeView::Candidate { text, shown, exists } => if exists {
            found_path(text)
        } else {
            match exe {
                ProbeView::Failed(description) => Err(description),
                ProbeView::NoParent => Err("Cannot resolve exe directory"@),
                ProbeView::Candidate { text: exe_text, shown: exe_shown, exists: exe_exists } => if exe_exists {
                    found_path(exe_text)
                } else {
                    Err("Worker not found at "@ + shown + " or "@ + exe_shown)
                },
            }
        },
    }
}

/// The outcome of resolving, as plain values.
pub open spec fn path_outcome(r: Result<String, Failure>) -> Result<Seq<char>, Seq<char>> {
    match r {
        Ok(path) => Ok(path@),
        Err(failure) => Err(failure.message@),
    }
}

/// The path of a location where the script was found.
fn found(text: &Option<String>) -> (r: Result<String, Failure>)
    ensures
        path_outcome(r) == found_path(text_of(*text)),
        r matches Err(failure) ==> failure.kind == ErrorKind::SpawnFailure,
{
    match text {
        Some(path) => Ok(path.clone()),
        None => Err(Failure::new(ErrorKind::SpawnFailure, "Invalid path encoding")),
    }
}

/// Decides where the worker script is, from what was found at the two locations where
/// it may be. Every failure is a spawn failure.
pub fn resolve_worker_path(dev: &PathProbe, exe: &PathProbe) -> (r: Result<String, Failure>)
    ensures
        path_outcome(r) == resolved_path(dev@, exe@),
        r matches Err(failure) ==> failure.kind == ErrorKind::SpawnFailure,
{
    match dev {
        PathProbe::Failed(description) => Err(
            Failure::new(ErrorKind::SpawnFailure, description.as_str()),
        ),
        PathProbe::NoParent => Err(
            Failure::new(ErrorKind::SpawnFailure, "Cannot resolve parent directory"),
        ),
        PathProbe::Candidate { text, shown, exists } => {
            if *exists {
                return found(text);
            }
            match exe {
                PathProbe::Failed(description) => Err(
                    Failure::new(ErrorKind::SpawnFailure, description.as_str()),
                ),
                PathProbe::NoParent => Err(
                    Failure::new(ErrorKind::SpawnFailure, "Cannot resolve exe directory"),
                ),
                PathProbe::Candidate { text: exe_text, shown: exe_shown, exists: exe_exists } => {
                    if *exe_exists {
                        return found(exe_text);
                    }
                    let mut message = "Worker not found at ".to_owned();
                    message.append(shown.as_str());
                    message.append(" or ");
                    message.append(exe_shown.as_str());
                    Err(Failure { kind: ErrorKind::SpawnFailure, message })
                },
            }
        },
    }
}

/// The certificate bundles that are looked for where none is configured, in order.
pub open spec fn bundle_candidates() -> Seq<Seq<char>> {
    seq![
        "/etc/ssl/cert.pem"@,
        "/etc/ssl/certs/ca-certificates.crt"@,
        "/etc/pki/tls/certs/ca-bundle.crt"@,
    ]
}

/// The place of the first candidate that is present.
pub open spec fn first_present(present: Seq<bool>, from: int) -> Option<int>
    decreases present.len() - from,
{
    if from < 0 || from >= present.len() || from >= bundle_candidates().len() {
        None
    } else if present[from] {
        Some(from)
    } else {
        first_present(present, from + 1)
    }
}

/// The first candidate that is present, if one is.
pub open spec fn fallback_bundle(present: Seq<bool>) -> Option<Seq<char>> {
    match first_present(present, 0) {
        Some(i) => Some(bundle_candidates()[i]),
        None => None,
    }
}

/// The certificate bundle for the worker: the configured one where one is configured
/// and not empty, else the first candidate that is present, else none.
pub open spec fn chosen_bundle(configured: Option<Seq<char>>, present: Seq<bool>) -> Option<
    Seq<char>,
> {
    match configured {
        Some(path) if path.len() > 0 => Some(path),
        _ => fallback_bundle(present),
    }
}

/// The certificate bundles that are looked for where none is configured, in order.
pub fn ca_cert_candidates() -> (candidates: Vec<String>)
    ensures
        candidates@.map_values(|s: String| s@) == bundle_candidates(),
{
    let mut candidates: Vec<String> = Vec::new();
    candidates.push("/etc/ssl/cert.pem".to_owned());
    candidates.push("/etc/ssl/certs/ca-certificates.crt".to_owned());
    candidates.push("/etc/pki/tls/certs/ca-bundle.crt".to_owned());
    assert(candidates@.map_values(|s: String| s@) =~= bundle_candidates());
    candidates
}

/// Decides which certificate bundle the worker is given: `configured` is what the
/// environment names, and `present` says of each candidate whether it is there.
pub fn resolve_ca_certs(configured: Option<String>, present: &Vec<bool>) -> (bundle: Option<String>)
    ensures
        text_of(bundle) == chosen_bundle(
            text_of(configured),
            present@,
        ),
{
    let ghost wanted = chosen_bundle(text_of(configured), present@);
    if let Some(path) = configured {
        if !path.as_str().is_empty() {
            return Some(path);
        }
    }
    assert(wanted == fallback_bundle(present@));
    let candidates = ca_cert_candidates();
    let mut i: usize = 0;
    while i < present.len() && i < candidates.len()
        invariant
            i <= present@.len(),
            i <= candidates@.len(),
            candidates@.map_values(|s: String| s@) == bundle_candidates(),
            first_present(present@, 0) == first_present(present@, i as int),
            wanted == fallback_bundle(present@),
            wanted == chosen_bundle(text_of(configured), present@),
        decreases present@.len() - i,
    {
        assert(candidates@.map_values(|s: String| s@).len() == candidates@.len());
        if present[i] {
            assert(candidates@.map_values(|s: String| s@)[i as int] == candidates@[i as int]@);
            assert(first_present(present@, i as int) == Some(i as int));
            return Some(candidates[i].clone());
        }
        assert(first_present(present@, i as int) == first_present(present@, i + 1));
        i += 1;
    }
    assert(candidates@.map_values(|s: String| s@).len() == candidates@.len());
    assert(first_present(present@, i as int) is None);
    None
}

/// How to launch a worker: the program, its arguments, where it runs and what is added
/// to its environment.
#[derive(Debug, Clone)]
pub struct WorkerLaunch {
    pub program: String,
    pub args: Vec<String>,
    pub current_dir: String,
    pub env: Vec<(String, String)>,
}

/// The additions to the worker's environment: the certificate bundle, where there is
/// one.
pub open spec fn launch_env(bundle: Option<Seq<char>>) -> Seq<(Seq<char>, Seq<char>)> {
    match bundle {
        Some(path) => seq![("NODE_EXTRA_CA_CERTS"@, path)],
        None => Seq::empty(),
    }
}

/// Describes the launch of the worker script at `worker_path`, run from `sidecar_dir`.
pub fn worker_launch(worker_path: &str, sidecar_dir: &str, bundle: Option<String>) -> (launch:
    WorkerLaunch)
    ensures
        launch.program@ == "node"@,
        launch.args@.map_values(|s: String| s@) == seq!["--import"@, "tsx"@, worker_path@],
        launch.current_dir@ == sidecar_dir@,
        launch.env@.map_values(|e: (String, String)| (e.0@, e.1@)) == launch_env(
            text_of(bundle),
        ),
{
    let mut args: Vec<String> = Vec::new();
    args.push("--import".to_owned());
    args.push("tsx".to_owned());
    args.push(worker_path.to_owned());
    let mut env: Vec<(String, String)> = Vec::new();
    if let Some(path) = bundle {
        env.push(("NODE_EXTRA_CA_CERTS".to_owned(), path));
    }
    assert(args@.map_values(|s: String| s@) =~= seq!["--import"@, "tsx"@, worker_path@]);
    assert(env@.map_values(|e: (String, String)| (e.0@, e.1@)) =~= launch_env(
        text_of(bundle),
    ));
    WorkerLaunch {
        program: "node".to_owned(),
        args,
        current_dir: sidecar_dir.to_owned(),
        env,
    }
}

} // verus!
