use checkalot::config::CommandSpec;
use checkalot::errors::RunCommandError;
use checkalot::runner::run_command;

fn workdir() -> (tempfile::TempDir, String) {
    let dir = tempfile::tempdir().unwrap();
    let path = dir.path().to_str().unwrap().to_string();
    (dir, path)
}

#[test]
fn simple_and_complex_zero_agree() {
    let simple = CommandSpec::Simple("true".to_string());
    let complex = CommandSpec::Complex {
        command: "true".to_string(),
        success_statuses: vec![0],
    };
    assert_eq!(simple.command(), complex.command());
    assert_eq!(simple.success_statuses(), complex.success_statuses());

    let (_keep, dir) = workdir();
    let none = None;
    assert!(run_command(&simple, &dir, &none).is_ok());
    assert!(run_command(&complex, &dir, &none).is_ok());

    let failing_simple = CommandSpec::Simple("false".to_string());
    let failing_complex = CommandSpec::Complex {
        command: "false".to_string(),
        success_statuses: vec![0],
    };
    assert!(matches!(
        run_command(&failing_simple, &dir, &none),
        Err(RunCommandError::StatusCode { code: 1, .. })
    ));
    assert!(matches!(
        run_command(&failing_complex, &dir, &none),
        Err(RunCommandError::StatusCode { code: 1, .. })
    ));
}

#[test]
fn success_statuses_of_simple_is_zero() {
    let simple = CommandSpec::Simple("true".to_string());
    assert_eq!(simple.success_statuses(), vec![0]);
}

#[test]
fn explicit_success_statuses_accept_nonzero() {
    let spec = CommandSpec::Complex {
        command: "false".to_string(),
        success_statuses: vec![1, 3],
    };
    assert_eq!(spec.success_statuses(), vec![1, 3]);
    let (_keep, dir) = workdir();
    assert!(run_command(&spec, &dir, &None).is_ok());
}

#[test]
fn missing_executable_is_not_found() {
    let (_keep, dir) = workdir();
    let spec = CommandSpec::Simple("this-executable-does-not-exist-anywhere".to_string());
    match run_command(&spec, &dir, &None) {
        Err(RunCommandError::NotFound(name)) => {
            assert_eq!(name, "this-executable-does-not-exist-anywhere");
        }
        other => panic!("expected NotFound, got {:?}", other),
    }
}

#[test]
fn failing_executable_is_status_code() {
    let (_keep, dir) = workdir();
    let spec = CommandSpec::Simple("false".to_string());
    match run_command(&spec, &dir, &None) {
        Err(RunCommandError::StatusCode { code, output }) => {
            assert_eq!(code, 1);
            assert_eq!(output, "");
        }
        other => panic!("expected StatusCode, got {:?}", other),
    }
}

#[test]
fn malformed_quoting_is_split_error() {
    let (_keep, dir) = workdir();
    let spec = CommandSpec::Simple("echo 'unclosed".to_string());
    assert!(matches!(
        run_command(&spec, &dir, &None),
        Err(RunCommandError::Split)
    ));
}

#[test]
fn empty_line_is_split_error() {
    let (_keep, dir) = workdir();
    let spec = CommandSpec::Simple("".to_string());
    assert!(matches!(
        run_command(&spec, &dir, &None),
        Err(RunCommandError::Split)
    ));
}

#[test]
fn quoted_arguments_stay_whole() {
    let (_keep, dir) = workdir();
    let spec = CommandSpec::Simple("echo 'a b'".to_string());
    assert_eq!(run_command(&spec, &dir, &None).unwrap(), "a b\n");
}

#[test]
fn stderr_is_merged_into_output() {
    let (_keep, dir) = workdir();
    let spec = CommandSpec::Simple("sh -c 'echo out; echo err >&2'".to_string());
    let out = run_command(&spec, &dir, &None).unwrap();
    assert!(out.contains("out"));
    assert!(out.contains("err"));
}

#[test]
fn environment_override_reaches_child() {
    let (_keep, dir) = workdir();
    let spec = CommandSpec::Simple("sh -c 'echo $CHECKALOT_TEST_VAR'".to_string());
    let env = Some(("CHECKALOT_TEST_VAR".to_string(), "hello".to_string()));
    assert_eq!(run_command(&spec, &dir, &env).unwrap(), "hello\n");
}

#[test]
fn working_directory_is_respected() {
    let (_keep, dir) = workdir();
    let spec = CommandSpec::Simple("pwd".to_string());
    let out = run_command(&spec, &dir, &None).unwrap();
    assert_eq!(out.trim_end(), dir);
}
