use std::path::PathBuf;
use wtp_mcp_rs::errors::WtpMcpError;
use wtp_mcp_rs::wtp::{parse_version, BinaryProbe, CommandOutput, WtpBinary, WtpRunner};

#[test]
fn test_parse_version_with_prefix() {
    assert_eq!(parse_version("wtp 1.2.3"), Some("1.2.3".to_string()));
    assert_eq!(parse_version("wtp 1.2.3\n"), Some("1.2.3".to_string()));
}

#[test]
fn test_parse_version_without_prefix() {
    assert_eq!(parse_version("1.2.3"), Some("1.2.3".to_string()));
    assert_eq!(parse_version("  1.2.3  \n"), Some("1.2.3".to_string()));
}

#[test]
fn parse_version_trims_after_prefix() {
    assert_eq!(parse_version("  wtp   2.0.0 \n"), Some("2.0.0".to_string()));
    assert_eq!(parse_version("wtpx 1"), Some("wtpx 1".to_string()));
}

#[test]
fn select_prefers_executable_config_path() {
    let config = Some(BinaryProbe {
        path: PathBuf::from("/opt/wtp"),
        executable: true,
    });
    let cache = Some(BinaryProbe {
        path: PathBuf::from("/cache/wtp"),
        executable: true,
    });
    let binary = WtpBinary::select(config, cache, Some(PathBuf::from("/usr/bin/wtp"))).unwrap();
    assert_eq!(binary.path, PathBuf::from("/opt/wtp"));
    assert!(binary.version.is_none());
}

#[test]
fn test_resolve_with_invalid_config_path_falls_back() {
    let config = Some(BinaryProbe {
        path: PathBuf::from("/nonexistent/path/wtp"),
        executable: false,
    });
    let binary = WtpBinary::select(config, None, Some(PathBuf::from("/usr/bin/wtp"))).unwrap();
    assert_ne!(binary.path, PathBuf::from("/nonexistent/path/wtp"));
    assert_eq!(binary.path, PathBuf::from("/usr/bin/wtp"));
}

#[test]
fn select_uses_cache_before_path() {
    let cache = Some(BinaryProbe {
        path: PathBuf::from("/cache/wtp"),
        executable: true,
    });
    let binary = WtpBinary::select(None, cache, Some(PathBuf::from("/usr/bin/wtp"))).unwrap();
    assert_eq!(binary.path, PathBuf::from("/cache/wtp"));
}

#[test]
fn select_without_any_binary_is_not_found() {
    let cache = Some(BinaryProbe {
        path: PathBuf::from("/cache/wtp"),
        executable: false,
    });
    match WtpBinary::select(None, cache, None) {
        Err(WtpMcpError::BinaryNotFound { message }) => assert_eq!(
            message,
            "wtp binary not found in config path, cache directory, or PATH"
        ),
        other => panic!("unexpected result: {other:?}"),
    }
}

#[test]
fn version_from_output_parses_or_fails() {
    let v = WtpBinary::version_from_output(CommandOutput {
        stdout: "wtp 1.2.3\n".to_string(),
        stderr: String::new(),
        exit_code: 0,
    })
    .unwrap();
    assert_eq!(v, "1.2.3");
    let err = WtpBinary::version_from_output(CommandOutput {
        stdout: String::new(),
        stderr: "nope".to_string(),
        exit_code: 4,
    })
    .unwrap_err();
    match err {
        WtpMcpError::CommandFailed {
            exit_code,
            message,
            stderr,
        } => {
            assert_eq!(exit_code, 4);
            assert_eq!(message, "wtp --version failed");
            assert_eq!(stderr, "nope");
        }
        other => panic!("unexpected error: {other:?}"),
    }
}

#[test]
fn runner_keeps_its_configuration() {
    let runner = WtpRunner::new(PathBuf::from("/bin/wtp"), PathBuf::from("/repo"));
    assert_eq!(runner.repo_root(), &PathBuf::from("/repo"));
    assert_eq!(runner.binary_path(), &PathBuf::from("/bin/wtp"));
}

#[test]
fn version_launch_failure_is_command_failure_without_stderr() {
    let e = std::io::Error::new(std::io::ErrorKind::NotFound, "no such file");
    match WtpBinary::version_launch_failure(&e) {
        WtpMcpError::CommandFailed {
            exit_code,
            message,
            stderr,
        } => {
            assert_eq!(exit_code, -1);
            assert_eq!(message, "failed to execute wtp --version: no such file");
            assert!(stderr.is_empty());
        }
        other => panic!("unexpected: {other:?}"),
    }
}
