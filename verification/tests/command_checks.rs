use checkalot::checks::{env_override_for, ExecContext};
use checkalot::config::{Check, CommandSpec};
use checkalot::errors::{CheckError, RunCommandError};
use checkalot::runner::run_command;

fn plain_ctx() -> ExecContext {
    ExecContext {
        tool_version: "0.1.0".to_string(),
        toolchain_env_set: false,
        toolchain_channels: vec![],
    }
}

fn workdir() -> (tempfile::TempDir, String) {
    let dir = tempfile::tempdir().unwrap();
    let path = dir.path().to_str().unwrap().to_string();
    (dir, path)
}

fn command_check(name: &str, command: &str) -> Check {
    Check::Command {
        name: name.to_string(),
        command: CommandSpec::Simple(command.to_string()),
        fix_command: None,
        folder: None,
        version_command: None,
        version: None,
        output: None,
    }
}

fn read_file(dir: &String, path: &str) -> String {
    let spec = CommandSpec::Simple(format!("cat {}", path));
    run_command(&spec, dir, &None).unwrap()
}

#[test]
fn missing_execution_folder_is_reported() {
    let (_keep, repo) = workdir();
    let check = Check::Command {
        name: "x".to_string(),
        command: CommandSpec::Simple("true".to_string()),
        fix_command: None,
        folder: Some("no-such-dir".to_string()),
        version_command: None,
        version: None,
        output: None,
    };
    match check.execute(&repo, false, &plain_ctx()) {
        Err(CheckError::ExecutionFolder(path)) => {
            assert_eq!(path, format!("{}/no-such-dir", repo));
        }
        other => panic!("expected ExecutionFolder, got {:?}", other),
    }
}

#[test]
fn version_without_version_command_is_configuration_error() {
    let (_keep, repo) = workdir();
    let check = Check::Command {
        name: "x".to_string(),
        command: CommandSpec::Simple("true".to_string()),
        fix_command: None,
        folder: None,
        version_command: None,
        version: Some("^1.0".to_string()),
        output: None,
    };
    assert!(matches!(
        check.execute(&repo, false, &plain_ctx()),
        Err(CheckError::MissingVersionCommand)
    ));
    // The configuration error is detected in fix mode too.
    assert!(matches!(
        check.execute(&repo, true, &plain_ctx()),
        Err(CheckError::MissingVersionCommand)
    ));
}

#[test]
fn command_version_gate_passes_and_runs_command() {
    let (_keep, repo) = workdir();
    let check = Check::Command {
        name: "x".to_string(),
        command: CommandSpec::Simple("touch ran.txt".to_string()),
        fix_command: None,
        folder: None,
        version_command: Some(CommandSpec::Simple("sh -c 'echo tool 1.2.3'".to_string())),
        version: Some("^1.2".to_string()),
        output: None,
    };
    assert!(check.execute(&repo, false, &plain_ctx()).is_ok());
    let probe = command_check("probe", "test -f ran.txt");
    assert!(probe.execute(&repo, false, &plain_ctx()).is_ok());
}

#[test]
fn command_version_gate_rejects_and_skips_command() {
    let (_keep, repo) = workdir();
    let check = Check::Command {
        name: "x".to_string(),
        command: CommandSpec::Simple("touch ran.txt".to_string()),
        fix_command: None,
        folder: None,
        version_command: Some(CommandSpec::Simple("sh -c 'echo tool 1.2.3'".to_string())),
        version: Some("^2.0".to_string()),
        output: None,
    };
    match check.execute(&repo, false, &plain_ctx()) {
        Err(CheckError::VersionReq {
            version_req,
            version,
        }) => {
            assert_eq!(version_req, "^2.0");
            assert_eq!(version, "1.2.3");
        }
        other => panic!("expected VersionReq, got {:?}", other),
    }
    let probe = command_check("probe", "test -f ran.txt");
    assert!(probe.execute(&repo, false, &plain_ctx()).is_err());
}

#[test]
fn unparseable_version_output_is_reported() {
    let (_keep, repo) = workdir();
    let check = Check::Command {
        name: "x".to_string(),
        command: CommandSpec::Simple("true".to_string()),
        fix_command: None,
        folder: None,
        version_command: Some(CommandSpec::Simple("sh -c 'echo mysterious'".to_string())),
        version: Some("^1.0".to_string()),
        output: None,
    };
    assert!(matches!(
        check.execute(&repo, false, &plain_ctx()),
        Err(CheckError::VersionFind(_))
    ));
}

#[test]
fn output_file_is_written_on_success() {
    let (_keep, repo) = workdir();
    let output_path = format!("{}/captured.txt", repo);
    let check = Check::Command {
        name: "x".to_string(),
        command: CommandSpec::Simple("sh -c 'echo hello'".to_string()),
        fix_command: None,
        folder: None,
        version_command: None,
        version: None,
        output: Some(output_path.clone()),
    };
    assert!(check.execute(&repo, false, &plain_ctx()).is_ok());
    assert_eq!(read_file(&repo, &output_path), "hello\n");
}

#[test]
fn output_file_is_written_on_failing_status() {
    let (_keep, repo) = workdir();
    let output_path = format!("{}/captured.txt", repo);
    let check = Check::Command {
        name: "x".to_string(),
        command: CommandSpec::Simple("sh -c 'echo oops; exit 3'".to_string()),
        fix_command: None,
        folder: None,
        version_command: None,
        version: None,
        output: Some(output_path.clone()),
    };
    match check.execute(&repo, false, &plain_ctx()) {
        Err(CheckError::RunCommand(RunCommandError::StatusCode { code, output })) => {
            assert_eq!(code, 3);
            assert_eq!(output, "oops\n");
        }
        other => panic!("expected StatusCode, got {:?}", other),
    }
    assert_eq!(read_file(&repo, &output_path), "oops\n");
}

#[test]
fn output_file_is_written_for_fix_command() {
    let (_keep, repo) = workdir();
    let output_path = format!("{}/captured.txt", repo);
    let check = Check::Command {
        name: "x".to_string(),
        command: CommandSpec::Simple("false".to_string()),
        fix_command: Some(CommandSpec::Simple("sh -c 'echo fixed'".to_string())),
        folder: None,
        version_command: None,
        version: None,
        output: Some(output_path.clone()),
    };
    assert!(check.execute(&repo, true, &plain_ctx()).is_ok());
    assert_eq!(read_file(&repo, &output_path), "fixed\n");
}

#[test]
fn output_file_is_written_for_failing_fix_command() {
    let (_keep, repo) = workdir();
    let output_path = format!("{}/captured.txt", repo);
    let check = Check::Command {
        name: "x".to_string(),
        command: CommandSpec::Simple("false".to_string()),
        fix_command: Some(CommandSpec::Simple("sh -c 'echo broken; exit 2'".to_string())),
        folder: None,
        version_command: None,
        version: None,
        output: Some(output_path.clone()),
    };
    match check.execute(&repo, true, &plain_ctx()) {
        Err(CheckError::RunCommand(RunCommandError::StatusCode { code, output })) => {
            assert_eq!(code, 2);
            assert_eq!(output, "broken\n");
        }
        other => panic!("expected StatusCode, got {:?}", other),
    }
    assert_eq!(read_file(&repo, &output_path), "broken\n");
}

#[test]
fn fix_without_fix_command_is_rejected() {
    let (_keep, repo) = workdir();
    let check = command_check("x", "false");
    assert!(matches!(
        check.execute(&repo, true, &plain_ctx()),
        Err(CheckError::NoFix)
    ));
}

#[test]
fn folder_resolves_relative_to_repository() {
    let (_keep, repo) = workdir();
    let setup = command_check("setup", "mkdir sub");
    assert!(setup.execute(&repo, false, &plain_ctx()).is_ok());
    let check = Check::Command {
        name: "x".to_string(),
        command: CommandSpec::Simple("pwd".to_string()),
        fix_command: None,
        folder: Some("sub".to_string()),
        version_command: None,
        version: None,
        output: Some(format!("{}/pwd.txt", repo)),
    };
    assert!(check.execute(&repo, false, &plain_ctx()).is_ok());
    assert_eq!(
        read_file(&repo, &format!("{}/pwd.txt", repo)).trim_end(),
        format!("{}/sub", repo)
    );
}

#[test]
fn toolchain_override_is_looked_up_per_directory() {
    let ctx = ExecContext {
        tool_version: "0.1.0".to_string(),
        toolchain_env_set: true,
        toolchain_channels: vec![("/some/dir".to_string(), "1.75.0".to_string())],
    };
    let hit = env_override_for(&ctx, &"/some/dir".to_string());
    assert_eq!(
        hit,
        Some(("RUSTUP_TOOLCHAIN".to_string(), "1.75.0".to_string()))
    );
    assert!(env_override_for(&ctx, &"/other/dir".to_string()).is_none());

    let unset = ExecContext {
        toolchain_env_set: false,
        ..ctx
    };
    assert!(env_override_for(&unset, &"/some/dir".to_string()).is_none());
}
