//! The `wtp` command runner: its configuration, captured command output, and
//! the exit-status rule that turns output into a result.
use crate::errors::{Result, WtpMcpError};
use std::path::PathBuf;
use vstd::prelude::*;

verus! {

/// Captured output from a `wtp` command execution.
#[derive(Debug, Clone)]
pub struct CommandOutput {
    /// Standard output as UTF-8 string.
    pub stdout: String,
    /// Standard error as UTF-8 string.
    pub stderr: String,
    /// Exit code returned by the process (`-1` when it was ended by a signal).
    pub exit_code: i32,
}

/// Executes `wtp` commands with a configured repo root.
pub struct WtpRunner {
    binary_path: PathBuf,
    repo_root: PathBuf,
}

/// The text of a command argument list.
pub open spec fn arg_views(args: Seq<String>) -> Seq<Seq<char>> {
    args.map_values(|a: String| a@)
}

/// The argument list in `Debug` notation (`["list"]`, with each argument
/// quoted and escaped as `str::escape_debug` does).
pub uninterp spec fn debug_args(args: Seq<Seq<char>>) -> Seq<char>;

/// Renders the argument list with `format!("{:?}", args)`, the `Debug` impl
/// of a slice of `String`.  The contract names the result; the escaping of
/// the arguments is not written out.
#[verifier::external_body]
fn debug_args_text(args: &[String]) -> (t: String)
    ensures
        t@ == debug_args(arg_views(args@)),
{
    format!("{:?}", args)
}

/// The message of the error for a failed `wtp` command with these arguments:
/// `wtp `, the argument list in `Debug` notation, then ` failed`.
pub open spec fn failed_command_message(args: Seq<Seq<char>>) -> Seq<char> {
    "wtp "@ + debug_args(args) + " failed"@
}

/// The message of the error for a failed `wtp` command with `args`.
pub fn command_failed_message(args: &[String]) -> (m: String)
    ensures
        m@ == failed_command_message(arg_views(args@)),
{
    let text = debug_args_text(args);
    let mut m = String::from_str("wtp ");
    m.append(text.as_str());
    m.append(" failed");
    m
}

/// A command succeeded when it exited with status zero.
pub open spec fn succeeded(output: CommandOutput) -> bool {
    output.exit_code == 0
}

/// `e` is the failure of the command with arguments `args` that produced
/// `output`: it carries the exit code and the standard error.
pub open spec fn command_failure(args: Seq<Seq<char>>, output: CommandOutput, e: WtpMcpError) -> bool {
    &&& e matches WtpMcpError::CommandFailed { exit_code, message, stderr }
    &&& e->exit_code == output.exit_code
    &&& e->stderr == output.stderr
    &&& e->CommandFailed_message@ == failed_command_message(args)
}

/// The result of a checked run of `wtp` with `args`: the standard output when
/// the command exited with zero, otherwise a command failure that carries
/// the exit code and the standard error.
pub fn check_output(args: &[String], output: CommandOutput) -> (r: Result<String>)
    ensures
        succeeded(output) ==> (r matches Ok(s) && s == output.stdout),
        !succeeded(output) ==> (r matches Err(e) && command_failure(arg_views(args@), output, e)),
{
    if output.exit_code != 0 {
        return Err(
            WtpMcpError::CommandFailed {
                exit_code: output.exit_code,
                message: command_failed_message(args),
                stderr: output.stderr,
            },
        );
    }
    Ok(output.stdout)
}

impl WtpRunner {
    /// Create a runner for a specific binary path and repo root.
    pub fn new(binary_path: PathBuf, repo_root: PathBuf) -> (r: Self)
        ensures
            r.configured_binary() == binary_path,
            r.configured_root() == repo_root,
    {
        WtpRunner { binary_path, repo_root }
    }

    /// The binary this runner executes.
    pub closed spec fn configured_binary(&self) -> PathBuf {
        self.binary_path
    }

    /// The directory this runner executes in.
    pub closed spec fn configured_root(&self) -> PathBuf {
        self.repo_root
    }

    /// Return the configured repo root.
    pub fn repo_root(&self) -> (p: &PathBuf)
        ensures
            *p == self.configured_root(),
    {
        &self.repo_root
    }

    /// Return the configured binary path.
    pub fn binary_path(&self) -> (p: &PathBuf)
        ensures
            *p == self.configured_binary(),
    {
        &self.binary_path
    }
}

} // verus!
