//! Low-level helpers for interacting with the `wtp` CLI.

/// Binary metadata and version parsing for `wtp`.
pub use crate::wtp_binary::{parse_version, BinaryProbe, WtpBinary};
/// Parse `wtp list` output into structured worktree data.
pub use crate::wtp_parser::parse_list;
/// Command output and the runner configuration.
pub use crate::wtp_runner::{check_output, CommandOutput, WtpRunner};
