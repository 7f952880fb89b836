//! Configuration types for wtp-mcp and the merge of command-line overrides.
//!
//! Reading and parsing a TOML file is file I/O and stays with the binary; the
//! library holds the configuration values and the rules that combine them.
use std::path::PathBuf;
use vstd::prelude::*;

verus! {

/// Top-level configuration loaded from TOML and CLI overrides.
#[derive(Debug, Clone)]
pub struct Config {
    /// Repository root to operate in; defaults to the current directory when unset.
    pub repo_root: Option<PathBuf>,
    /// Settings for resolving the `wtp` binary.
    pub wtp: WtpConfig,
    /// Security policy flags for hooks and branch deletion.
    pub security: SecurityPolicy,
}

/// Configuration for resolving the `wtp` binary.
#[derive(Debug, Clone)]
pub struct WtpConfig {
    /// Optional explicit path to the `wtp` binary.
    pub path: Option<PathBuf>,
}

/// Security policy controlling hooks and branch deletion.
#[derive(Debug, Clone, Copy)]
pub struct SecurityPolicy {
    /// Whether `.wtp.yml` hooks are allowed to run.
    pub allow_hooks: bool,
    /// Whether branch deletion is allowed.
    pub allow_branch_delete: bool,
}

/// CLI overrides applied on top of TOML configuration.
pub struct CliArgs {
    /// Optional repo root override.
    pub repo_root: Option<PathBuf>,
    /// Optional explicit `wtp` binary path override.
    pub wtp_path: Option<PathBuf>,
}

impl Default for WtpConfig {
    /// No explicit binary path.
    fn default() -> (c: Self)
        ensures
            c.path is None,
    {
        WtpConfig { path: None }
    }
}

impl Default for SecurityPolicy {
    /// The safe defaults: hooks and branch deletion are both disallowed.
    fn default() -> (p: Self)
        ensures
            !p.allow_hooks,
            !p.allow_branch_delete,
    {
        SecurityPolicy { allow_hooks: false, allow_branch_delete: false }
    }
}

impl Default for Config {
    /// No repo root, no explicit binary path, and the safe security defaults.
    fn default() -> (c: Self)
        ensures
            c.repo_root is None,
            c.wtp.path is None,
            !c.security.allow_hooks,
            !c.security.allow_branch_delete,
    {
        Config { repo_root: None, wtp: WtpConfig::default(), security: SecurityPolicy::default() }
    }
}

/// An override wins when it is given; otherwise the current value stays.
pub open spec fn overridden(current: Option<PathBuf>, cli: Option<PathBuf>) -> Option<PathBuf> {
    if cli is Some {
        cli
    } else {
        current
    }
}

fn clone_path_option(p: &Option<PathBuf>) -> (r: Option<PathBuf>)
    ensures
        r == *p,
{
    match p {
        Some(path) => Some(path.clone()),
        None => None,
    }
}

impl Config {
    /// Merge CLI overrides into the loaded configuration: each override that
    /// is given replaces the configured value; everything else is kept.
    pub fn merge_cli(&mut self, cli: &CliArgs)
        ensures
            final(self).repo_root == overridden(old(self).repo_root, cli.repo_root),
            final(self).wtp.path == overridden(old(self).wtp.path, cli.wtp_path),
            final(self).security == old(self).security,
    {
        if cli.repo_root.is_some() {
            self.repo_root = clone_path_option(&cli.repo_root);
        }
        if cli.wtp_path.is_some() {
            self.wtp.path = clone_path_option(&cli.wtp_path);
        }
    }
}

/// A given override always replaces the configured value; an absent one
/// leaves it unchanged.
pub proof fn lemma_override_wins(current: Option<PathBuf>, cli: Option<PathBuf>)
    ensures
        cli is Some ==> overridden(current, cli) == cli,
        cli is None ==> overridden(current, cli) == current,
{
}

/// Merging the same overrides a second time changes nothing.
pub proof fn lemma_merge_cli_idempotent(c: Option<PathBuf>, cli: Option<PathBuf>)
    ensures
        overridden(overridden(c, cli), cli) == overridden(c, cli),
{
}

} // verus!
