//! The preflight gate: the version gate, the repository gate, and the
//! dispatch that runs them in order before a subcommand may proceed.
//!
//! Each gate is a pure function of a probe outcome: the result of one `git`
//! invocation (or the failure to start it), as the caller captured it. The
//! caller performs the invocations; the decisions are all made and verified
//! here.

use crate::errors::{GitError, GitErrorView};
use crate::runner::{CommandResult, CommandResultView};
use crate::text;
use crate::version;
use vstd::prelude::*;

verus! {

/// The options every subcommand shares. None are declared yet.
#[derive(Debug, Clone, Copy, PartialEq, Eq, Structural)]
pub struct RootOptions {}

/// Options of the `init` subcommand. None are declared yet.
#[derive(Debug, Clone, Copy, PartialEq, Eq, Structural)]
pub struct InitOptions {}

/// Options of the `switch` subcommand. None are declared yet.
#[derive(Debug, Clone, Copy, PartialEq, Eq, Structural)]
pub struct SwitchOptions {}

/// The subcommand the user selected.
#[derive(Debug, Clone, Copy, PartialEq, Eq, Structural)]
pub enum Subcommands {
    Init(InitOptions),
    Switch(SwitchOptions),
}

/// A parsed command line: the selected subcommand and the shared options.
#[derive(Debug, Clone, Copy, PartialEq, Eq, Structural)]
pub struct Commandline {
    pub subcommand: Subcommands,
    pub root_options: RootOptions,
}

/// The outcome of one attempted `git` invocation, as the caller hands it in:
/// the completed process, or the classified failure to start it.
pub open spec fn spec_probe_view(probe: Result<CommandResult, GitError>) -> Result<
    CommandResultView,
    GitErrorView,
> {
    match probe {
        Ok(out) => Ok(out@),
        Err(e) => Err(e@),
    }
}

/// The view of a gate's result.
pub open spec fn spec_gate_view(r: Result<(), GitError>) -> Result<(), GitErrorView> {
    match r {
        Ok(u) => Ok(u),
        Err(e) => Err(e@),
    }
}

/// What the version gate decides for a probe outcome, step by step: an
/// invocation failure propagates unchanged; a failing exit carries the
/// (lossily decoded) stderr; stdout must decode as UTF-8, hold at least three
/// whitespace tokens, and have its third token parse as a semantic version at
/// least the hardcoded minimum.
pub open spec fn spec_version_gate(probe: Result<CommandResultView, GitErrorView>) -> Result<
    (),
    GitErrorView,
> {
    match probe {
        Err(e) => Err(e),
        Ok(out) => {
            if !out.success {
                Err(GitErrorView::VersionCheckFailed { stderr: text::utf8_lossy_chars(out.stderr) })
            } else if !vstd::utf8::valid_utf8(out.stdout) {
                Err(
                    GitErrorView::InvalidOutputEncoding {
                        details: text::utf8_error_text(out.stdout),
                    },
                )
            } else {
                let decoded = vstd::utf8::decode_utf8(out.stdout);
                let tokens = text::whitespace_tokens(decoded);
                if tokens.len() < 3 {
                    Err(GitErrorView::MalformedVersionOutput { details: decoded })
                } else {
                    match version::semver_parse(tokens[2]) {
                        Err(parse_error) => Err(
                            GitErrorView::MalformedVersionOutput { details: parse_error },
                        ),
                        Ok(detected) => {
                            if version::spec_precedes_release(
                                detected,
                                version::spec_minimum_git_version(),
                            ) {
                                Err(
                                    GitErrorView::VersionTooOld {
                                        required: version::spec_minimum_git_version(),
                                        detected,
                                    },
                                )
                            } else {
                                Ok(())
                            }
                        },
                    }
                }
            }
        },
    }
}

/// The version gate: verifies that the `git --version` probe succeeded and
/// reported a version no older than the required minimum.
pub fn must_have_new_git_command(probe: Result<CommandResult, GitError>) -> (r: Result<
    (),
    GitError,
>)
    ensures
        spec_gate_view(r) == spec_version_gate(spec_probe_view(probe)),
{
    let out = match probe {
        Ok(out) => out,
        Err(e) => {
            return Err(e);
        },
    };
    if !out.success {
        let stderr_text = text::lossy_utf8_text(&out.stderr);
        return Err(GitError::VersionCheckFailed { stderr: stderr_text });
    }
    let version_line = match text::decode_utf8_text(out.stdout) {
        Ok(t) => t,
        Err(decode_error) => {
            return Err(GitError::InvalidOutputEncoding { details: decode_error });
        },
    };
    let tokens = text::whitespace_token_list(version_line.as_str());
    if tokens.len() < 3 {
        return Err(GitError::MalformedVersionOutput { details: version_line });
    }
    let detected = match version::parse_version_token(tokens[2].as_str()) {
        Ok(v) => v,
        Err(parse_error) => {
            return Err(GitError::MalformedVersionOutput { details: parse_error });
        },
    };
    let required = version::minimum_git_version();
    if detected.precedes_release(&required) {
        return Err(GitError::VersionTooOld { required, detected });
    }
    Ok(())
}

/// What the repository gate decides for a probe outcome: an invocation
/// failure propagates unchanged; a failing exit means the current directory
/// is not a repository, whatever the process printed; a successful exit
/// passes.
pub open spec fn spec_repository_gate(probe: Result<CommandResultView, GitErrorView>) -> Result<
    (),
    GitErrorView,
> {
    match probe {
        Err(e) => Err(e),
        Ok(out) => {
            if !out.success {
                Err(GitErrorView::NotARepository)
            } else {
                Ok(())
            }
        },
    }
}

/// The repository gate: verifies that the `git rev-parse
/// --is-inside-work-tree` probe succeeded, consulting only its exit status.
pub fn must_in_git_repository(probe: Result<CommandResult, GitError>) -> (r: Result<(), GitError>)
    ensures
        spec_gate_view(r) == spec_repository_gate(spec_probe_view(probe)),
{
    match probe {
        Err(e) => Err(e),
        Ok(out) => {
            if !out.success {
                Err(GitError::NotARepository)
            } else {
                Ok(())
            }
        },
    }
}

/// What a subcommand returns once the gates have passed. Both handlers are
/// declared but not yet implemented: each succeeds without doing anything.
pub open spec fn spec_dispatch(commandline: Commandline) -> Result<(), GitErrorView> {
    match commandline.subcommand {
        Subcommands::Init(_) => Ok(()),
        Subcommands::Switch(_) => Ok(()),
    }
}

/// The `init` subcommand handler: a stub that succeeds unconditionally.
pub fn init(root_options: RootOptions, options: InitOptions) -> (r: Result<(), GitError>)
    ensures
        spec_gate_view(r) == spec_dispatch(
            Commandline { subcommand: Subcommands::Init(options), root_options },
        ),
{
    Ok(())
}

/// The `switch` subcommand handler: a stub that succeeds unconditionally.
pub fn switch(root_options: RootOptions, options: SwitchOptions) -> (r: Result<(), GitError>)
    ensures
        spec_gate_view(r) == spec_dispatch(
            Commandline { subcommand: Subcommands::Switch(options), root_options },
        ),
{
    Ok(())
}

/// The whole run: the version gate, then the repository gate, each
/// short-circuiting on failure, and only then the selected subcommand.
pub open spec fn spec_run(
    commandline: Commandline,
    version_probe: Result<CommandResultView, GitErrorView>,
    repository_probe: Result<CommandResultView, GitErrorView>,
) -> Result<(), GitErrorView> {
    match spec_version_gate(version_probe) {
        Err(e) => Err(e),
        Ok(_) => match spec_repository_gate(repository_probe) {
            Err(e) => Err(e),
            Ok(_) => spec_dispatch(commandline),
        },
    }
}

/// Runs the preflight gates in order on the two probe outcomes and, when both
/// pass, dispatches to the selected subcommand handler.
pub fn run(
    commandline: Commandline,
    version_probe: Result<CommandResult, GitError>,
    repository_probe: Result<CommandResult, GitError>,
) -> (r: Result<(), GitError>)
    ensures
        spec_gate_view(r) == spec_run(
            commandline,
            spec_probe_view(version_probe),
            spec_probe_view(repository_probe),
        ),
{
    match must_have_new_git_command(version_probe) {
        Err(e) => {
            return Err(e);
        },
        Ok(_) => {},
    }
    match must_in_git_repository(repository_probe) {
        Err(e) => {
            return Err(e);
        },
        Ok(_) => {},
    }
    match commandline.subcommand {
        Subcommands::Init(options) => init(commandline.root_options, options),
        Subcommands::Switch(options) => switch(commandline.root_options, options),
    }
}

/// Dispatch order: when the version gate fails, its error decides the whole
/// run. The repository probe is immaterial — the repository gate need never
/// be consulted — and no subcommand handler's outcome is either.
pub proof fn lemma_version_failure_short_circuits(
    commandline: Commandline,
    version_probe: Result<CommandResultView, GitErrorView>,
    repository_probe1: Result<CommandResultView, GitErrorView>,
    repository_probe2: Result<CommandResultView, GitErrorView>,
)
    requires
        spec_version_gate(version_probe) is Err,
    ensures
        spec_run(commandline, version_probe, repository_probe1) == spec_run(
            commandline,
            version_probe,
            repository_probe2,
        ),
        spec_run(commandline, version_probe, repository_probe1) == Result::<
            (),
            GitErrorView,
        >::Err(spec_version_gate(version_probe)->Err_0),
{
}

/// The repository gate reads only the exit status: two completed probes with
/// the same status get the same verdict, whatever their output streams hold.
pub proof fn lemma_repository_gate_ignores_output(a: CommandResultView, b: CommandResultView)
    requires
        a.success == b.success,
    ensures
        spec_repository_gate(Ok(a)) == spec_repository_gate(Ok(b)),
{
}

/// Idempotence: a gate check carries no hidden state, so running it twice
/// over identical probe outcomes produces identical verdicts.
pub proof fn lemma_run_deterministic(
    commandline1: Commandline,
    commandline2: Commandline,
    version_probe1: Result<CommandResultView, GitErrorView>,
    version_probe2: Result<CommandResultView, GitErrorView>,
    repository_probe1: Result<CommandResultView, GitErrorView>,
    repository_probe2: Result<CommandResultView, GitErrorView>,
)
    requires
        commandline1 == commandline2,
        version_probe1 == version_probe2,
        repository_probe1 == repository_probe2,
    ensures
        spec_run(commandline1, version_probe1, repository_probe1) == spec_run(
            commandline2,
            version_probe2,
            repository_probe2,
        ),
{
}

} // verus!
