use wtp_mcp_rs::config::SecurityPolicy;
use wtp_mcp_rs::errors::WtpMcpError;
use wtp_mcp_rs::security::{PolicyGuard, WtpYmlState};

fn restrictive_guard() -> PolicyGuard {
    PolicyGuard {
        allow_hooks: false,
        allow_branch_delete: false,
    }
}

fn permissive_guard() -> PolicyGuard {
    PolicyGuard {
        allow_hooks: true,
        allow_branch_delete: true,
    }
}

#[test]
fn from_config_creates_guard() {
    let security = SecurityPolicy {
        allow_hooks: false,
        allow_branch_delete: false,
    };
    let guard = PolicyGuard::from_config(&security);
    assert!(!guard.allow_hooks);
    assert!(!guard.allow_branch_delete);
}

#[test]
fn from_config_permissive() {
    let security = SecurityPolicy {
        allow_hooks: true,
        allow_branch_delete: true,
    };
    let guard = PolicyGuard::from_config(&security);
    assert!(guard.allow_hooks);
    assert!(guard.allow_branch_delete);
}

#[test]
fn check_hooks_allowed() {
    let state = WtpYmlState::Parsed { has_hooks: true };
    assert!(permissive_guard().check_hooks(state).is_ok());
}

#[test]
fn check_hooks_no_file() {
    assert!(restrictive_guard().check_hooks(WtpYmlState::Missing).is_ok());
}

#[test]
fn check_hooks_without_hooks_passes() {
    let result = restrictive_guard().check_hooks(WtpYmlState::Parsed { has_hooks: false });
    assert!(result.is_ok());
}

#[test]
fn check_hooks_with_hooks_is_policy_violation() {
    let result = restrictive_guard().check_hooks(WtpYmlState::Parsed { has_hooks: true });
    match result {
        Err(WtpMcpError::PolicyViolation { message }) => assert_eq!(
            message,
            "Hooks are configured in .wtp.yml but hooks are not allowed by security policy"
        ),
        other => panic!("unexpected result: {other:?}"),
    }
}

#[test]
fn check_hooks_invalid_yaml_is_parse_error() {
    let result = restrictive_guard().check_hooks(WtpYmlState::Invalid {
        error: "bad indentation".to_string(),
        contents: "hooks: [".to_string(),
    });
    match result {
        Err(WtpMcpError::ParseError {
            message,
            raw_output,
        }) => {
            assert_eq!(message, "Failed to parse .wtp.yml: bad indentation");
            assert_eq!(raw_output, "hooks: [");
        }
        other => panic!("unexpected result: {other:?}"),
    }
}

#[test]
fn check_hooks_unreadable_is_io_error() {
    let err = std::io::Error::new(std::io::ErrorKind::PermissionDenied, "denied");
    let result = restrictive_guard().check_hooks(WtpYmlState::Unreadable(err));
    assert!(matches!(result, Err(WtpMcpError::Io(_))));
    let err = std::io::Error::new(std::io::ErrorKind::PermissionDenied, "denied");
    assert!(permissive_guard()
        .check_hooks(WtpYmlState::Unreadable(err))
        .is_ok());
}

#[test]
fn check_branch_delete_not_requested() {
    assert!(restrictive_guard().check_branch_delete(false).is_ok());
}

#[test]
fn check_branch_delete_allowed() {
    assert!(permissive_guard().check_branch_delete(true).is_ok());
}

#[test]
fn check_branch_delete_blocked() {
    let result = restrictive_guard().check_branch_delete(true);
    assert!(result.is_err());
    assert!(matches!(
        result.unwrap_err(),
        WtpMcpError::PolicyViolation { .. }
    ));
}
