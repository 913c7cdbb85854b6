//! The project a check runs on: its configuration, the files the run looks
//! for in it, and how a run over it begins.
use vstd::prelude::*;
use vstd::string::StringExecFns;
use crate::run::{Phase, Run, RunError, RunView};

verus! {

/// The configuration of a check.
pub struct Config {
    /// Where the preview server serves the stories.
    pub base_url: String,
    /// The command that starts the preview server.
    pub start_command: String,
}

/// The script whose value, in a rendered page, is the text of the first rule
/// of its first style sheet.
pub const STYLE_PROBE: &'static str = "document.styleSheets[0].cssRules[0].cssText";

/// `"<dir>/<name>"`.
pub open spec fn joined(dir: Seq<char>, name: Seq<char>) -> Seq<char> {
    dir + seq!['/'] + name
}

/// `"package.json"`.
pub open spec fn manifest_name() -> Seq<char> {
    seq!['p', 'a', 'c', 'k', 'a', 'g', 'e', '.', 'j', 's', 'o', 'n']
}

/// `".gitignore"`.
pub open spec fn ignore_file_name() -> Seq<char> {
    seq!['.', 'g', 'i', 't', 'i', 'g', 'n', 'o', 'r', 'e']
}

/// Relies on `std::path::Path::exists`: whether something is at `path`
/// at the time of the call.
#[verifier::external_body]
fn path_exists(path: &str) -> bool {
    std::path::Path::new(path).exists()
}

/// Whether a file or directory is at `path` now. What is on disk may change
/// between two calls, so nothing is promised of the answer.
pub fn file_exists(path: &str) -> bool {
    path_exists(path)
}

/// Where the project manifest of the project in `dir` stands.
pub fn manifest_path(dir: &str) -> (r: String)
    ensures
        r@ == joined(dir@, manifest_name()),
{
    proof {
        reveal_strlit("/package.json");
    }
    let r = dir.to_owned().concat("/package.json");
    assert(r@ =~= joined(dir@, manifest_name()));
    r
}

/// Where the ignore file of the project in `dir` stands.
pub fn ignore_file_path(dir: &str) -> (r: String)
    ensures
        r@ == joined(dir@, ignore_file_name()),
{
    proof {
        reveal_strlit("/.gitignore");
    }
    let r = dir.to_owned().concat("/.gitignore");
    assert(r@ =~= joined(dir@, ignore_file_name()));
    r
}

/// The home directory: `HOME` when it is set, else `USERPROFILE`.
pub fn home_dir_from<T>(home: Option<T>, user_profile: Option<T>) -> (r: Option<T>)
    ensures
        r == (match home {
            Some(h) => Some(h),
            None => user_profile,
        }),
{
    match home {
        Some(h) => Some(h),
        None => user_profile,
    }
}

/// A run over `total` stories of the project in `dir`. It fails at once,
/// starting nothing, when the project has no manifest.
pub fn open_run(dir: &str, total: usize) -> (r: Run)
    ensures
        r.wf(),
        r.results().len() == 0,
        r@ == (RunView { phase: Phase::Starting, total: total as nat, done: 0, error: None })
            || r@ == (RunView {
            phase: Phase::Finished,
            total: total as nat,
            done: 0,
            error: Some(RunError::MissingManifest),
        }),
{
    let manifest = manifest_path(dir);
    Run::new(file_exists(manifest.as_str()), total)
}

} // verus!
