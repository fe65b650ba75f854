use checkalot::checks::ExecContext;
use checkalot::config::Check;
use checkalot::errors::CheckError;
use checkalot::versions::{select_version_token, version_gate};

fn ctx_with_version(version: &str) -> ExecContext {
    ExecContext {
        tool_version: version.to_string(),
        toolchain_env_set: false,
        toolchain_channels: vec![],
    }
}

#[test]
fn first_parseable_token_is_extracted() {
    let token = select_version_token("tool version 3.4.1 (abc)");
    assert_eq!(token.unwrap(), "3.4.1");
}

#[test]
fn no_token_extracted_from_prose() {
    assert!(select_version_token("no version here").is_none());
}

#[test]
fn version_gate_accepts_matching_version() {
    let req = "^3.4".to_string();
    let out = "tool version 3.4.1 (abc)".to_string();
    assert_eq!(version_gate(&req, &out).unwrap(), "3.4.1");
}

#[test]
fn version_gate_rejects_mismatching_version() {
    let req = "^4.0".to_string();
    let out = "tool version 3.4.1 (abc)".to_string();
    match version_gate(&req, &out) {
        Err(CheckError::VersionReq {
            version_req,
            version,
        }) => {
            assert_eq!(version_req, "^4.0");
            assert_eq!(version, "3.4.1");
        }
        other => panic!("expected VersionReq, got {:?}", other),
    }
}

#[test]
fn version_gate_reports_unfindable_version() {
    let req = "^1.0".to_string();
    let out = "no version here".to_string();
    match version_gate(&req, &out) {
        Err(CheckError::VersionFind(raw)) => assert_eq!(raw, "no version here"),
        other => panic!("expected VersionFind, got {:?}", other),
    }
}

#[test]
fn tool_version_check_accepts_within_range() {
    let check = Check::Version {
        version: "^1.2.0".to_string(),
    };
    let ctx = ctx_with_version("1.2.5");
    let repo = ".".to_string();
    assert!(check.execute(&repo, false, &ctx).is_ok());
}

#[test]
fn tool_version_check_rejects_major_bump() {
    let check = Check::Version {
        version: "^1.2.0".to_string(),
    };
    let ctx = ctx_with_version("2.0.0");
    let repo = ".".to_string();
    match check.execute(&repo, false, &ctx) {
        Err(CheckError::VersionReq {
            version_req,
            version,
        }) => {
            assert_eq!(version_req, "^1.2.0");
            assert_eq!(version, "2.0.0");
        }
        other => panic!("expected VersionReq, got {:?}", other),
    }
}
