use std::path::PathBuf;
use wtp_mcp_rs::config::{CliArgs, Config, SecurityPolicy, WtpConfig};

#[test]
fn test_default_values() {
    let default_config = Config::default();
    assert!(default_config.repo_root.is_none());
    assert!(!default_config.security.allow_hooks);
    assert!(!default_config.security.allow_branch_delete);
}

#[test]
fn test_merge_cli_repo_root() {
    let mut config = Config::default();
    let cli = CliArgs {
        repo_root: Some(PathBuf::from("/tmp/repo")),
        wtp_path: None,
    };
    config.merge_cli(&cli);
    assert_eq!(config.repo_root, Some(PathBuf::from("/tmp/repo")));
    assert_eq!(config.wtp.path, None);
}

#[test]
fn test_merge_cli_wtp_path() {
    let mut config = Config::default();
    let cli = CliArgs {
        repo_root: None,
        wtp_path: Some(PathBuf::from("/usr/local/bin/wtp")),
    };
    config.merge_cli(&cli);
    assert_eq!(config.repo_root, None);
    assert_eq!(config.wtp.path, Some(PathBuf::from("/usr/local/bin/wtp")));
}

#[test]
fn merge_cli_keeps_values_without_overrides() {
    let mut config = Config {
        repo_root: Some(PathBuf::from("/configured")),
        wtp: WtpConfig {
            path: Some(PathBuf::from("/configured/wtp")),
        },
        security: SecurityPolicy {
            allow_hooks: true,
            allow_branch_delete: false,
        },
    };
    config.merge_cli(&CliArgs {
        repo_root: None,
        wtp_path: None,
    });
    assert_eq!(config.repo_root, Some(PathBuf::from("/configured")));
    assert_eq!(config.wtp.path, Some(PathBuf::from("/configured/wtp")));
    assert!(config.security.allow_hooks);
}

#[test]
fn merge_cli_twice_is_merge_once() {
    let cli = CliArgs {
        repo_root: Some(PathBuf::from("/cli")),
        wtp_path: None,
    };
    let mut once = Config::default();
    once.merge_cli(&cli);
    let mut twice = Config::default();
    twice.merge_cli(&cli);
    twice.merge_cli(&cli);
    assert_eq!(once.repo_root, twice.repo_root);
    assert_eq!(once.wtp.path, twice.wtp.path);
}

#[test]
fn security_policy_defaults_are_safe() {
    let policy = SecurityPolicy::default();
    assert!(!policy.allow_hooks);
    assert!(!policy.allow_branch_delete);
    assert!(WtpConfig::default().path.is_none());
}
