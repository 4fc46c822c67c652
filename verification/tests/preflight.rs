use gitgate::errors::GitError;
use gitgate::gates::{
    init, must_have_new_git_command, must_in_git_repository, run, switch, Commandline,
    InitOptions, RootOptions, Subcommands, SwitchOptions,
};
use gitgate::runner::{classify_run_failure, CommandResult, OsFailure};
use gitgate::version::{version_string, SemVer};

fn completed(success: bool, stdout: &str, stderr: &str) -> Result<CommandResult, GitError> {
    Ok(CommandResult {
        success,
        stdout: stdout.as_bytes().to_vec(),
        stderr: stderr.as_bytes().to_vec(),
    })
}

fn args(list: &[&str]) -> Vec<String> {
    list.iter().map(|a| a.to_string()).collect()
}

#[test]
fn not_found_is_reported_regardless_of_arguments() {
    for list in [
        vec![],
        vec!["--version"],
        vec!["rev-parse", "--is-inside-work-tree"],
        vec!["anything", "at", "all"],
    ] {
        let e = classify_run_failure(&args(&list), OsFailure::NotFound);
        assert_eq!(e, GitError::ExecutableNotFound);
        assert_eq!(e.message(), "git command not found");
    }
}

#[test]
fn spawn_failure_message_names_the_command_line() {
    let e = classify_run_failure(
        &args(&["--version"]),
        OsFailure::Other { message: "permission denied\n".to_string() },
    );
    assert_eq!(e.message(), "failed to run 'git --version': permission denied");
}

#[test]
fn spawn_failure_message_joins_several_arguments() {
    let e = classify_run_failure(
        &args(&["rev-parse", "--is-inside-work-tree"]),
        OsFailure::Other { message: "resource exhausted".to_string() },
    );
    assert_eq!(
        e.message(),
        "failed to run 'git rev-parse --is-inside-work-tree': resource exhausted"
    );
}

#[test]
fn version_gate_accepts_the_exact_minimum() {
    let r = must_have_new_git_command(completed(true, "git version 2.30.0", ""));
    assert_eq!(r, Ok(()));
}

#[test]
fn version_gate_accepts_newer_versions() {
    assert_eq!(must_have_new_git_command(completed(true, "git version 2.39.1", "")), Ok(()));
    assert_eq!(must_have_new_git_command(completed(true, "git version 3.0.0", "")), Ok(()));
}

#[test]
fn version_gate_rejects_older_versions() {
    let r = must_have_new_git_command(completed(true, "git version 2.29.9", ""));
    match r {
        Err(e @ GitError::VersionTooOld { .. }) => {
            let m = e.message();
            assert!(m.contains("2.30.0"));
            assert!(m.contains("2.29.9"));
            assert_eq!(m, "git version must be at least 2.30.0, but 2.29.9 is found");
        }
        other => panic!("expected VersionTooOld, got {:?}", other),
    }
}

#[test]
fn version_gate_rejects_a_prerelease_of_the_minimum() {
    let r = must_have_new_git_command(completed(true, "git version 2.30.0-rc.1", ""));
    match r {
        Err(e @ GitError::VersionTooOld { .. }) => {
            assert_eq!(
                e.message(),
                "git version must be at least 2.30.0, but 2.30.0-rc.1 is found"
            );
        }
        other => panic!("expected VersionTooOld, got {:?}", other),
    }
}

#[test]
fn version_gate_ignores_build_metadata_of_the_detected_version() {
    let r = must_have_new_git_command(completed(true, "git version 2.30.0+gdeadbeef", ""));
    assert_eq!(r, Ok(()));
}

#[test]
fn version_gate_rejects_output_that_is_no_version() {
    let r = must_have_new_git_command(completed(true, "not a version string", ""));
    match r {
        Err(GitError::MalformedVersionOutput { .. }) => {}
        other => panic!("expected MalformedVersionOutput, got {:?}", other),
    }
}

#[test]
fn version_gate_rejects_an_unparseable_version_token() {
    let r = must_have_new_git_command(completed(true, "git version notasemver", ""));
    match r {
        Err(e @ GitError::MalformedVersionOutput { .. }) => {
            assert!(e.message().starts_with("git version output is not valid: "));
        }
        other => panic!("expected MalformedVersionOutput, got {:?}", other),
    }
}

#[test]
fn version_gate_rejects_output_with_too_few_tokens() {
    let r = must_have_new_git_command(completed(true, "git version", ""));
    match r {
        Err(e @ GitError::MalformedVersionOutput { .. }) => {
            assert_eq!(e.message(), "git version output is not valid: git version");
        }
        other => panic!("expected MalformedVersionOutput, got {:?}", other),
    }
}

#[test]
fn version_gate_rejects_empty_output() {
    let r = must_have_new_git_command(completed(true, "", ""));
    match r {
        Err(GitError::MalformedVersionOutput { .. }) => {}
        other => panic!("expected MalformedVersionOutput, got {:?}", other),
    }
}

#[test]
fn version_gate_splits_on_any_whitespace() {
    let r = must_have_new_git_command(completed(true, "git\tversion   2.30.0\n", ""));
    assert_eq!(r, Ok(()));
}

#[test]
fn version_gate_reports_a_failing_exit_with_trimmed_stderr() {
    let r = must_have_new_git_command(completed(false, "", "  fatal: broken install \n"));
    match r {
        Err(e @ GitError::VersionCheckFailed { .. }) => {
            assert_eq!(e.message(), "failed to run 'git --version': fatal: broken install");
        }
        other => panic!("expected VersionCheckFailed, got {:?}", other),
    }
}

#[test]
fn version_gate_decodes_failing_stderr_lossily() {
    let probe = Ok(CommandResult {
        success: false,
        stdout: Vec::new(),
        stderr: vec![0xff, 0xfe, b'x'],
    });
    let r = must_have_new_git_command(probe);
    match r {
        Err(e @ GitError::VersionCheckFailed { .. }) => {
            let m = e.message();
            assert!(m.contains('\u{fffd}'));
            assert!(m.contains('x'));
        }
        other => panic!("expected VersionCheckFailed, got {:?}", other),
    }
}

#[test]
fn version_gate_rejects_stdout_that_is_not_utf8() {
    let probe = Ok(CommandResult {
        success: true,
        stdout: vec![0xc3, 0x28],
        stderr: Vec::new(),
    });
    let r = must_have_new_git_command(probe);
    match r {
        Err(e @ GitError::InvalidOutputEncoding { .. }) => {
            assert!(e.message().starts_with("git version output is not utf8: "));
        }
        other => panic!("expected InvalidOutputEncoding, got {:?}", other),
    }
}

#[test]
fn version_gate_propagates_an_invocation_failure_unchanged() {
    let r = must_have_new_git_command(Err(GitError::ExecutableNotFound));
    assert_eq!(r, Err(GitError::ExecutableNotFound));
}

#[test]
fn repository_gate_rejects_a_failing_exit_whatever_stderr_says() {
    for stderr in ["", "fatal: not a git repository", "some other text"] {
        let r = must_in_git_repository(completed(false, "", stderr));
        assert_eq!(r, Err(GitError::NotARepository));
        assert_eq!(
            r.unwrap_err().message(),
            "current directory is not a git repository"
        );
    }
}

#[test]
fn repository_gate_accepts_a_successful_exit() {
    let r = must_in_git_repository(completed(true, "true\n", ""));
    assert_eq!(r, Ok(()));
}

#[test]
fn repository_gate_propagates_an_invocation_failure_unchanged() {
    let spawn_error = classify_run_failure(
        &args(&["rev-parse", "--is-inside-work-tree"]),
        OsFailure::Other { message: "boom".to_string() },
    );
    let r = must_in_git_repository(Err(spawn_error.clone()));
    assert_eq!(r, Err(spawn_error));
}

#[test]
fn run_dispatches_once_both_gates_pass() {
    let commandline =
        Commandline { subcommand: Subcommands::Init(InitOptions {}), root_options: RootOptions {} };
    let r = run(
        commandline,
        completed(true, "git version 2.30.0", ""),
        completed(true, "true\n", ""),
    );
    assert_eq!(r, Ok(()));
    let commandline = Commandline {
        subcommand: Subcommands::Switch(SwitchOptions {}),
        root_options: RootOptions {},
    };
    let r = run(
        commandline,
        completed(true, "git version 2.31.0", ""),
        completed(true, "true\n", ""),
    );
    assert_eq!(r, Ok(()));
}

#[test]
fn run_reports_the_version_failure_whatever_the_repository_probe_held() {
    let commandline =
        Commandline { subcommand: Subcommands::Init(InitOptions {}), root_options: RootOptions {} };
    let expected = must_have_new_git_command(completed(true, "git version 2.29.9", ""));
    let expected = Err(expected.unwrap_err());
    for repository_probe in [
        completed(true, "true\n", ""),
        completed(false, "", "fatal: not a git repository"),
        Err(GitError::ExecutableNotFound),
    ] {
        let r = run(
            commandline,
            completed(true, "git version 2.29.9", ""),
            repository_probe,
        );
        assert_eq!(r, expected);
    }
}

#[test]
fn run_reports_the_repository_failure_after_the_version_gate_passes() {
    let commandline =
        Commandline { subcommand: Subcommands::Init(InitOptions {}), root_options: RootOptions {} };
    let r = run(
        commandline,
        completed(true, "git version 2.30.0", ""),
        completed(false, "", "fatal: not a git repository"),
    );
    assert_eq!(r, Err(GitError::NotARepository));
}

#[test]
fn running_the_same_gate_check_twice_gives_identical_outcomes() {
    let commandline =
        Commandline { subcommand: Subcommands::Init(InitOptions {}), root_options: RootOptions {} };
    let first = run(
        commandline,
        completed(true, "git version 2.29.9", ""),
        completed(true, "true\n", ""),
    );
    let second = run(
        commandline,
        completed(true, "git version 2.29.9", ""),
        completed(true, "true\n", ""),
    );
    assert_eq!(first, second);
    let first = run(
        commandline,
        completed(true, "git version 2.30.0", ""),
        completed(true, "true\n", ""),
    );
    let second = run(
        commandline,
        completed(true, "git version 2.30.0", ""),
        completed(true, "true\n", ""),
    );
    assert_eq!(first, second);
}

#[test]
fn subcommand_stubs_succeed() {
    assert_eq!(init(RootOptions {}, InitOptions {}), Ok(()));
    assert_eq!(switch(RootOptions {}, SwitchOptions {}), Ok(()));
}

#[test]
fn version_display_matches_the_semantic_version_grammar() {
    let v = SemVer {
        major: 18446744073709551615,
        minor: 30,
        patch: 0,
        prerelease: String::new(),
        build: String::new(),
    };
    assert_eq!(version_string(&v), "18446744073709551615.30.0");
    let v = SemVer {
        major: 1,
        minor: 0,
        patch: 207,
        prerelease: "rc.1".to_string(),
        build: "g5f3a".to_string(),
    };
    assert_eq!(version_string(&v), "1.0.207-rc.1+g5f3a");
}
