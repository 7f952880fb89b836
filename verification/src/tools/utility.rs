//! Utility tool helpers for config and shell integration.
//!
//! Each tool is one `wtp` run: a function gives the arguments to run, and a
//! function turns the run's output into the tool's result.
use crate::errors::{Result, WtpMcpError};
use crate::text::{chars_of, opt_text, string_of, trim, trimmed};
use crate::wtp_runner::{arg_views, check_output, command_failure, CommandOutput};
use vstd::prelude::*;

verus! {

/// Input for `init-config`.
#[derive(Debug)]
pub struct InitConfigInput {}

/// Output for `init-config`.
#[derive(Debug)]
pub struct InitConfigOutput {
    /// Absolute or relative path to the created config file.
    pub path: String,
}

/// Input for `get-worktree-path`.
#[derive(Debug)]
pub struct GetWorktreePathInput {
    /// Worktree selector from list-worktrees. Omit to return the main worktree path.
    pub name: Option<String>,
}

/// Output for `get-worktree-path`.
#[derive(Debug)]
pub struct WorktreePathOutput {
    /// Absolute path to the resolved worktree.
    pub path: String,
}

/// Input for `shell-hook`.
#[derive(Debug)]
pub struct ShellHookInput {
    /// Shell type: bash, zsh, or fish.
    pub shell: String,
}

/// Input for `shell-init`.
#[derive(Debug)]
pub struct ShellInitInput {
    /// Shell type: bash, zsh, or fish.
    pub shell: String,
}

/// Output for `shell-hook` or `shell-init`.
#[derive(Debug)]
pub struct ShellScriptOutput {
    /// Shell type the script targets.
    pub shell: String,
    /// Script content to install in the shell configuration.
    pub script: String,
}

/// The shells that `wtp` has integration scripts for.
pub open spec fn is_valid_shell(shell: Seq<char>) -> bool {
    shell == "bash"@ || shell == "zsh"@ || shell == "fish"@
}

/// Message of the error for an unsupported shell.
pub open spec fn invalid_shell_message(shell: Seq<char>) -> Seq<char> {
    "invalid shell '"@ + shell + "': must be one of bash, zsh, fish"@
}

/// Accept `bash`, `zsh` and `fish`; reject any other shell with a policy
/// violation naming it.
pub fn validate_shell(shell: &str) -> (r: Result<()>)
    ensures
        r is Ok <==> is_valid_shell(shell@),
        r matches Err(e) ==> (e matches WtpMcpError::PolicyViolation { message } && message@
            == invalid_shell_message(shell@)),
{
    let s = String::from_str(shell);
    if s == String::from_str("bash") || s == String::from_str("zsh") || s == String::from_str(
        "fish",
    ) {
        Ok(())
    } else {
        let mut message = String::from_str("invalid shell '");
        message.append(shell);
        message.append("': must be one of bash, zsh, fish");
        Err(WtpMcpError::PolicyViolation { message })
    }
}

fn args_of(words: &[&str]) -> (a: Vec<String>)
    ensures
        arg_views(a@) == words@.map_values(|w: &str| w@),
{
    let mut a: Vec<String> = Vec::new();
    let mut i: usize = 0;
    while i < words.len()
        invariant
            i <= words@.len(),
            arg_views(a@) == words@.subrange(0, i as int).map_values(|w: &str| w@),
        decreases words@.len() - i,
    {
        let ghost before = arg_views(a@);
        let word = String::from_str(words[i]);
        assert(word@ == words@[i as int]@);
        a.push(word);
        assert(arg_views(a@) =~= before.push(words@[i as int]@));
        assert(words@.subrange(0, i + 1).map_values(|w: &str| w@) =~= words@.subrange(
            0,
            i as int,
        ).map_values(|w: &str| w@).push(words@[i as int]@));
        i += 1;
    }
    assert(words@.subrange(0, words@.len() as int) =~= words@);
    a
}

/// The arguments of `wtp init`.
pub fn init_config_args() -> (a: Vec<String>)
    ensures
        arg_views(a@) == seq!["init"@],
{
    let a = args_of(&["init"]);
    assert(arg_views(a@) =~= seq!["init"@]);
    a
}

/// The result of `init-config` from the run of `wtp init`: the trimmed path
/// that it printed.
pub fn init_config_from_output(output: CommandOutput) -> (r: Result<InitConfigOutput>)
    ensures
        output.exit_code == 0 ==> (r matches Ok(o) && o.path@ == trim(output.stdout@)),
        output.exit_code != 0 ==> (r matches Err(e) && command_failure(seq!["init"@], output, e)),
{
    let args = init_config_args();
    let stdout = check_output(&args, output)?;
    let path = trimmed(&chars_of(stdout.as_str()));
    Ok(InitConfigOutput { path: string_of(&path) })
}

/// The arguments of `wtp cd` for a path lookup: `cd <name>`, or `cd` alone
/// for the main worktree.
pub open spec fn worktree_path_args(name: Option<Seq<char>>) -> Seq<Seq<char>> {
    match name {
        Some(n) => seq!["cd"@, n],
        None => seq!["cd"@],
    }
}

/// The arguments to run for `get-worktree-path`.
pub fn get_worktree_path_args(input: &GetWorktreePathInput) -> (a: Vec<String>)
    ensures
        arg_views(a@) == worktree_path_args(opt_text(input.name)),
{
    let mut a: Vec<String> = Vec::new();
    a.push(String::from_str("cd"));
    match &input.name {
        Some(name) => {
            a.push(name.clone());
        },
        None => {},
    }
    assert(arg_views(a@) =~= worktree_path_args(opt_text(input.name)));
    a
}

/// The result of `get-worktree-path` from the run of `wtp cd`: the trimmed
/// path that it printed.
pub fn worktree_path_from_output(args: &[String], output: CommandOutput) -> (r: Result<
    WorktreePathOutput,
>)
    ensures
        output.exit_code == 0 ==> (r matches Ok(o) && o.path@ == trim(output.stdout@)),
        output.exit_code != 0 ==> (r matches Err(e) && command_failure(
            arg_views(args@),
            output,
            e,
        )),
{
    let stdout = check_output(args, output)?;
    let path = trimmed(&chars_of(stdout.as_str()));
    Ok(WorktreePathOutput { path: string_of(&path) })
}

/// The arguments to run for a shell script: `<command> <shell>` when the
/// shell is supported, the shell error otherwise.
fn shell_script_args(command: &str, shell: &str) -> (r: Result<Vec<String>>)
    ensures
        is_valid_shell(shell@) ==> (r matches Ok(a) && arg_views(a@) == seq![command@, shell@]),
        !is_valid_shell(shell@) ==> (r matches Err(e) && e matches WtpMcpError::PolicyViolation {
            message,
        } && message@ == invalid_shell_message(shell@)),
{
    validate_shell(shell)?;
    let a = args_of(&[command, shell]);
    assert(arg_views(a@) =~= seq![command@, shell@]);
    Ok(a)
}

/// The arguments to run for `shell-hook`: `hook <shell>`, after the shell is
/// validated.
pub fn shell_hook_args(input: &ShellHookInput) -> (r: Result<Vec<String>>)
    ensures
        is_valid_shell(input.shell@) ==> (r matches Ok(a) && arg_views(a@) == seq![
            "hook"@,
            input.shell@,
        ]),
        !is_valid_shell(input.shell@) ==> (r matches Err(e) && e matches WtpMcpError::PolicyViolation {
            message,
        } && message@ == invalid_shell_message(input.shell@)),
{
    shell_script_args("hook", input.shell.as_str())
}

/// The arguments to run for `shell-init`: `shell-init <shell>`, after the
/// shell is validated.
pub fn shell_init_args(input: &ShellInitInput) -> (r: Result<Vec<String>>)
    ensures
        is_valid_shell(input.shell@) ==> (r matches Ok(a) && arg_views(a@) == seq![
            "shell-init"@,
            input.shell@,
        ]),
        !is_valid_shell(input.shell@) ==> (r matches Err(e) && e matches WtpMcpError::PolicyViolation {
            message,
        } && message@ == invalid_shell_message(input.shell@)),
{
    shell_script_args("shell-init", input.shell.as_str())
}

/// The script returned for `shell` by a run of `wtp hook` or `wtp shell-init`:
/// its standard output, unchanged.
pub fn shell_script_from_output(shell: String, args: &[String], output: CommandOutput) -> (r:
    Result<ShellScriptOutput>)
    ensures
        output.exit_code == 0 ==> (r matches Ok(o) && o.shell == shell && o.script
            == output.stdout),
        output.exit_code != 0 ==> (r matches Err(e) && command_failure(
            arg_views(args@),
            output,
            e,
        )),
{
    let script = check_output(args, output)?;
    Ok(ShellScriptOutput { shell, script })
}

} // verus!
