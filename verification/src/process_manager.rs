//! Launch decisions for the two applications under test: how a configured path is
//! resolved, what a failed start reports, and when both applications count as running.

use vstd::prelude::*;
use crate::text::{ends_with, from_utf8_lossy, has_suffix, lowercase, to_lowercase, trim, trim_spec, utf8_lossy};

verus! {

/// An operating-system error, as `std::io` reports it.
#[verifier::external_type_specification]
#[verifier::external_body]
pub struct ExIoError(std::io::Error);

/// Why the applications under test could not be started.
pub enum ProcessError {
    /// The application at `path` (the path as configured, before any shortcut was
    /// resolved) failed to start with `source`.
    StartError { path: String, source: std::io::Error },
}

/// `text` is a way `Display` writes the error `e`. For an operating-system error the
/// text comes from the system and may differ between machines and locales, so this
/// relates the two without fixing the text.
pub uninterp spec fn describes(e: std::io::Error, text: Seq<char>) -> bool;

/// `Display` of an `std::io::Error`: a text that describes the error.
#[verifier::external_body]
fn io_error_text(e: &std::io::Error) -> (r: String)
    ensures
        describes(*e, r@),
{
    format!("{}", e)
}

impl ProcessError {
    /// The failure to start the application configured as `path`.
    pub fn start_error(path: &str, source: std::io::Error) -> (e: Self)
        ensures
            e.failed_path() == path@,
            e.failure_source() == source,
    {
        ProcessError::StartError { path: path.to_string(), source }
    }

    /// The operating system's error behind the failure.
    pub open spec fn failure_source(&self) -> std::io::Error {
        match self {
            ProcessError::StartError { source, .. } => *source,
        }
    }

    /// The configured path of the application that failed to start.
    pub open spec fn failed_path(&self) -> Seq<char> {
        match self {
            ProcessError::StartError { path, .. } => path@,
        }
    }

    /// The message of the error: the path, then the text that describes the operating
    /// system's error.
    pub fn message(&self) -> (m: String)
        ensures
            exists|reason: Seq<char>|
                describes(self.failure_source(), reason) && m@ == "Failed to start application '"@
                    + self.failed_path() + "': "@ + reason,
    {
        match self {
            ProcessError::StartError { path, source } => {
                let reason = io_error_text(source);
                let mut m = String::from_str("Failed to start application '");
                m.append(path.as_str());
                m.append("': ");
                m.append(reason.as_str());
                assert(describes(self.failure_source(), reason@));
                assert(m@ == "Failed to start application '"@ + self.failed_path() + "': "@ + reason@);
                m
            },
        }
    }
}

/// The path names a Windows shortcut: its lowercase form ends in `.lnk`.
pub open spec fn is_shortcut_spec(path: Seq<char>) -> bool {
    has_suffix(lowercase(path), ".lnk"@)
}

/// The PowerShell expression that prints the target of the shortcut at `path`.
pub open spec fn shortcut_target_script_spec(path: Seq<char>) -> Seq<char> {
    "(New-Object -COM WScript.Shell).CreateShortcut('"@ + path + "').TargetPath"@
}

/// The path an application is started from: for a shortcut whose lookup printed a
/// target, that target, trimmed; otherwise the configured path itself.
pub open spec fn resolved_path_spec(path: Seq<char>, lookup_stdout: Option<Seq<u8>>) -> Seq<char> {
    match lookup_stdout {
        Some(out) => if is_shortcut_spec(path) && trim_spec(utf8_lossy(out)).len() > 0 {
            trim_spec(utf8_lossy(out))
        } else {
            path
        },
        None => path,
    }
}

/// Whether `path` names a Windows shortcut (`.lnk`, in any letter case).
pub fn is_shortcut(path: &str) -> (r: bool)
    ensures
        r == is_shortcut_spec(path@),
{
    let lower = to_lowercase(path);
    ends_with(lower.as_str(), ".lnk")
}

/// The PowerShell expression whose output is the target of the shortcut at `path`.
pub fn shortcut_target_script(path: &str) -> (q: String)
    ensures
        q@ == shortcut_target_script_spec(path@),
{
    let mut q = String::from_str("(New-Object -COM WScript.Shell).CreateShortcut('");
    q.append(path);
    q.append("').TargetPath");
    q
}

/// The path to start an application from, given what the shortcut lookup printed
/// (`None` where no lookup ran or it could not run): a shortcut resolves to the
/// trimmed target it printed, unless that is empty; any other path stays as it is.
pub fn resolve_path(path: &str, lookup_stdout: Option<&[u8]>) -> (r: String)
    ensures
        r@ == resolved_path_spec(path@, match lookup_stdout {
            Some(out) => Some(out@),
            None => None,
        }),
        r@ == path@ || is_shortcut_spec(path@),
{
    if is_shortcut(path) {
        if let Some(out) = lookup_stdout {
            let text = from_utf8_lossy(out);
            let target = trim(text.as_str());
            if target.unicode_len() > 0 {
                return target.to_string();
            }
        }
    }
    path.to_string()
}

/// What polling a started application (`Child::try_wait`) told.
#[derive(Clone, Copy, Debug, PartialEq, Eq, Structural)]
pub enum PollOutcome {
    /// It has not exited yet.
    StillRunning,
    /// It has exited.
    Exited,
    /// The poll itself failed.
    PollFailed,
}

/// Whether the test goes on: only while both applications are still running; an
/// application whose poll failed counts as exited.
pub fn both_still_running(first: PollOutcome, second: PollOutcome) -> (r: bool)
    ensures
        r <==> (first == PollOutcome::StillRunning && second == PollOutcome::StillRunning),
{
    match (first, second) {
        (PollOutcome::StillRunning, PollOutcome::StillRunning) => true,
        _ => false,
    }
}

} // verus!
