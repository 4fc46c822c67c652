//! The process-runner model: what a finished `git` invocation leaves behind,
//! what an OS-level invocation failure looks like, and how such a failure is
//! turned into a `GitError`.
//!
//! Spawning the child process is operating-system work and stays with the
//! caller; this module holds the logic around it.

use crate::errors::{GitError, GitErrorView};
use vstd::prelude::*;

verus! {

/// What a completed child process left behind: whether it exited
/// successfully, and its captured output streams. A non-zero exit is not an
/// invocation failure, only information for the caller.
#[derive(Debug, Clone, PartialEq, Eq)]
pub struct CommandResult {
    pub success: bool,
    pub stdout: Vec<u8>,
    pub stderr: Vec<u8>,
}

/// The mathematical content of a `CommandResult`.
pub struct CommandResultView {
    pub success: bool,
    pub stdout: Seq<u8>,
    pub stderr: Seq<u8>,
}

impl View for CommandResult {
    type V = CommandResultView;

    open spec fn view(&self) -> CommandResultView {
        CommandResultView { success: self.success, stdout: self.stdout@, stderr: self.stderr@ }
    }
}

/// An OS-level failure to start or wait on the child process, as the caller
/// observed it: the program was missing from the search path, or anything
/// else, with the OS error text.
#[derive(Debug, Clone, PartialEq, Eq)]
pub enum OsFailure {
    NotFound,
    Other { message: String },
}

/// The mathematical content of an `OsFailure`.
pub enum OsFailureView {
    NotFound,
    Other { message: Seq<char> },
}

impl View for OsFailure {
    type V = OsFailureView;

    open spec fn view(&self) -> OsFailureView {
        match self {
            OsFailure::NotFound => OsFailureView::NotFound,
            OsFailure::Other { message } => OsFailureView::Other { message: message@ },
        }
    }
}

/// The space-joined argument list.
pub open spec fn spec_join_spaces(args: Seq<Seq<char>>) -> Seq<char>
    decreases args.len(),
{
    if args.len() == 0 {
        Seq::<char>::empty()
    } else if args.len() == 1 {
        args[0]
    } else {
        spec_join_spaces(args.drop_last()) + " "@ + args.last()
    }
}

/// The attempted command line: the program name, then the space-joined
/// arguments.
pub open spec fn spec_command_line(args: Seq<Seq<char>>) -> Seq<char> {
    "git "@ + spec_join_spaces(args)
}

fn join_spaces(args: &Vec<String>) -> (s: String)
    ensures
        s@ == spec_join_spaces(args.deep_view()),
{
    let mut s = String::new();
    let mut i: usize = 0;
    while i < args.len()
        invariant
            i <= args.len(),
            s@ == spec_join_spaces(args.deep_view().take(i as int)),
        decreases args.len() - i,
    {
        if i > 0 {
            s.append(" ");
        }
        s.append(args[i].as_str());
        proof {
            let taken = args.deep_view().take(i + 1);
            assert(taken.drop_last() =~= args.deep_view().take(i as int));
            assert(taken.last() == args.deep_view()[i as int]);
            if i == 0 {
                assert(s@ =~= spec_join_spaces(taken));
            }
        }
        i = i + 1;
    }
    proof {
        assert(args.deep_view().take(args.len() as int) =~= args.deep_view());
    }
    s
}

/// Renders the attempted command line for an argument list.
pub fn command_line(args: &Vec<String>) -> (s: String)
    ensures
        s@ == spec_command_line(args.deep_view()),
{
    let mut s = String::from_str("git ");
    let joined = join_spaces(args);
    s.append(joined.as_str());
    s
}

/// The classification of an OS-level invocation failure: a missing executable
/// has a fixed report; anything else carries the attempted command line and
/// the OS error text.
pub open spec fn spec_classify_failure(args: Seq<Seq<char>>, failure: OsFailureView) -> GitErrorView {
    match failure {
        OsFailureView::NotFound => GitErrorView::ExecutableNotFound,
        OsFailureView::Other { message } => GitErrorView::SpawnFailed {
            command_line: spec_command_line(args),
            os_error: message,
        },
    }
}

/// Classifies an OS-level invocation failure for the given argument list.
pub fn classify_run_failure(args: &Vec<String>, failure: OsFailure) -> (e: GitError)
    ensures
        e@ == spec_classify_failure(args.deep_view(), failure@),
{
    match failure {
        OsFailure::NotFound => GitError::ExecutableNotFound,
        OsFailure::Other { message } => GitError::SpawnFailed {
            command_line: command_line(args),
            os_error: message,
        },
    }
}

/// A missing executable is reported as `ExecutableNotFound` whatever the
/// argument list was.
pub proof fn lemma_not_found_ignores_arguments(args1: Seq<Seq<char>>, args2: Seq<Seq<char>>)
    ensures
        spec_classify_failure(args1, OsFailureView::NotFound) == spec_classify_failure(
            args2,
            OsFailureView::NotFound,
        ),
        spec_classify_failure(args1, OsFailureView::NotFound) == GitErrorView::ExecutableNotFound,
{
}

} // verus!
