//! The error taxonomy of the preflight gate, with the exact user-facing
//! message of each kind.

use crate::text;
use crate::version::{spec_version_chars, version_string, SemVer, SemVerView};
use vstd::prelude::*;

verus! {

/// Everything that can go wrong before a subcommand is allowed to run. Each
/// failure is terminal; none is retried.
#[derive(Debug, Clone, PartialEq, Eq)]
pub enum GitError {
    /// The `git` executable is missing from the search path.
    ExecutableNotFound,
    /// Another OS-level failure to start or wait on the process.
    SpawnFailed { command_line: String, os_error: String },
    /// The version query ran but exited with a failure status.
    VersionCheckFailed { stderr: String },
    /// The version query's stdout was not valid UTF-8.
    InvalidOutputEncoding { details: String },
    /// The version query's stdout had too few tokens, or its version token
    /// did not parse as a semantic version.
    MalformedVersionOutput { details: String },
    /// The detected git version is strictly older than the required minimum.
    VersionTooOld { required: SemVer, detected: SemVer },
    /// The work-tree query exited with a failure status.
    NotARepository,
}

/// The mathematical content of a `GitError`.
pub enum GitErrorView {
    ExecutableNotFound,
    SpawnFailed { command_line: Seq<char>, os_error: Seq<char> },
    VersionCheckFailed { stderr: Seq<char> },
    InvalidOutputEncoding { details: Seq<char> },
    MalformedVersionOutput { details: Seq<char> },
    VersionTooOld { required: SemVerView, detected: SemVerView },
    NotARepository,
}

impl View for GitError {
    type V = GitErrorView;

    open spec fn view(&self) -> GitErrorView {
        match self {
            GitError::ExecutableNotFound => GitErrorView::ExecutableNotFound,
            GitError::SpawnFailed { command_line, os_error } => GitErrorView::SpawnFailed {
                command_line: command_line@,
                os_error: os_error@,
            },
            GitError::VersionCheckFailed { stderr } => GitErrorView::VersionCheckFailed {
                stderr: stderr@,
            },
            GitError::InvalidOutputEncoding { details } => GitErrorView::InvalidOutputEncoding {
                details: details@,
            },
            GitError::MalformedVersionOutput { details } => GitErrorView::MalformedVersionOutput {
                details: details@,
            },
            GitError::VersionTooOld { required, detected } => GitErrorView::VersionTooOld {
                required: required@,
                detected: detected@,
            },
            GitError::NotARepository => GitErrorView::NotARepository,
        }
    }
}

/// The user-facing message of each error kind.
pub open spec fn spec_message(e: GitErrorView) -> Seq<char> {
    match e {
        GitErrorView::ExecutableNotFound => "git command not found"@,
        GitErrorView::SpawnFailed { command_line, os_error } => text::trimmed_of(
            "failed to run '"@ + command_line + "': "@ + os_error,
        ),
        GitErrorView::VersionCheckFailed { stderr } => "failed to run 'git --version': "@
            + text::trimmed_of(stderr),
        GitErrorView::InvalidOutputEncoding { details } => "git version output is not utf8: "@
            + details,
        GitErrorView::MalformedVersionOutput { details } => "git version output is not valid: "@
            + details,
        GitErrorView::VersionTooOld { required, detected } => "git version must be at least "@
            + spec_version_chars(required) + ", but "@ + spec_version_chars(detected)
            + " is found"@,
        GitErrorView::NotARepository => "current directory is not a git repository"@,
    }
}

impl GitError {
    /// Renders the message a user sees for this error.
    pub fn message(&self) -> (m: String)
        ensures
            m@ == spec_message(self@),
    {
        match self {
            GitError::ExecutableNotFound => String::from_str("git command not found"),
            GitError::SpawnFailed { command_line, os_error } => {
                let mut s = String::from_str("failed to run '");
                s.append(command_line.as_str());
                s.append("': ");
                s.append(os_error.as_str());
                text::trim_text(s.as_str())
            },
            GitError::VersionCheckFailed { stderr } => {
                let mut s = String::from_str("failed to run 'git --version': ");
                let trimmed = text::trim_text(stderr.as_str());
                s.append(trimmed.as_str());
                s
            },
            GitError::InvalidOutputEncoding { details } => {
                let mut s = String::from_str("git version output is not utf8: ");
                s.append(details.as_str());
                s
            },
            GitError::MalformedVersionOutput { details } => {
                let mut s = String::from_str("git version output is not valid: ");
                s.append(details.as_str());
                s
            },
            GitError::VersionTooOld { required, detected } => {
                let mut s = String::from_str("git version must be at least ");
                let required_text = version_string(required);
                s.append(required_text.as_str());
                s.append(", but ");
                let detected_text = version_string(detected);
                s.append(detected_text.as_str());
                s.append(" is found");
                s
            },
            GitError::NotARepository => String::from_str("current directory is not a git repository"),
        }
    }
}

} // verus!
