use wtp_mcp_rs::config::SecurityPolicy;
use wtp_mcp_rs::errors::WtpMcpError;
use wtp_mcp_rs::tools::{
    add_worktree_resume, add_worktree_start, get_worktree_path_args, init_config_from_output,
    list_worktrees_from_output, merge_worktree_from_output, remove_worktree_from_output, remove_worktree_plan,
    shell_hook_args, shell_init_args, shell_script_from_output, validate_shell,
    worktree_path_from_output, AddWorktreeInput, AddWorktreeStep, GetWorktreePathInput,
    MergeWorktreeInput,
    RemoveWorktreeInput, ShellHookInput, ShellInitInput,
};
use wtp_mcp_rs::wtp::CommandOutput;

const LIST_OUTPUT: &str = "/repo/main main abc123 (main worktree)\n\
feature-branch feature/awesome def456\n\
/abs/bugfix bugfix/123 aaa111\n";

fn success(stdout: &str) -> CommandOutput {
    CommandOutput {
        stdout: stdout.to_string(),
        stderr: String::new(),
        exit_code: 0,
    }
}

fn failed(code: i32, stderr: &str) -> CommandOutput {
    CommandOutput {
        stdout: String::new(),
        stderr: stderr.to_string(),
        exit_code: code,
    }
}

/// Runs the add-worktree steps against canned outputs keyed by command.
fn drive_add(input: AddWorktreeInput, respond: impl Fn(&[String]) -> CommandOutput) -> (Vec<Vec<String>>, Result<wtp_mcp_rs::tools::AddWorktreeOutput, WtpMcpError>) {
    let mut seen = Vec::new();
    let mut step = add_worktree_start(&input);
    loop {
        match step {
            AddWorktreeStep::Run(run) => {
                seen.push(run.args.clone());
                let output = respond(&run.args);
                step = add_worktree_resume(run, output);
            }
            AddWorktreeStep::Done(result) => return (seen, result),
        }
    }
}

fn stub(args: &[String]) -> CommandOutput {
    match args.first().map(String::as_str) {
        Some("add") => success(""),
        Some("list") => success(LIST_OUTPUT),
        Some("cd") if args.get(1).map(String::as_str) == Some("feature/awesome") => {
            success("/repo/feature-branch\n")
        }
        _ => failed(1, "unknown"),
    }
}

#[test]
fn test_validate_shell_valid() {
    assert!(validate_shell("bash").is_ok());
    assert!(validate_shell("zsh").is_ok());
    assert!(validate_shell("fish").is_ok());
}

#[test]
fn test_validate_shell_invalid() {
    assert!(validate_shell("sh").is_err());
    assert!(validate_shell("powershell").is_err());
    assert!(validate_shell("").is_err());
}

#[test]
fn invalid_shell_message_names_the_shell() {
    match validate_shell("sh") {
        Err(WtpMcpError::PolicyViolation { message }) => {
            assert_eq!(message, "invalid shell 'sh': must be one of bash, zsh, fish")
        }
        other => panic!("unexpected result: {other:?}"),
    }
}

#[test]
fn test_add_rejects_both_branch_and_new_branch() {
    let input = AddWorktreeInput {
        branch: Some("main".to_string()),
        new_branch: Some("feature".to_string()),
        from: None,
    };
    assert!(input.branch.is_some() && input.new_branch.is_some());
    match add_worktree_start(&input) {
        AddWorktreeStep::Done(Err(WtpMcpError::ConfigError { message })) => assert_eq!(
            message,
            "'branch' and 'new_branch' are mutually exclusive; provide only one"
        ),
        other => panic!("unexpected step: {other:?}"),
    }
}

#[test]
fn add_worktree_requires_branch_or_new_branch() {
    let input = AddWorktreeInput {
        branch: None,
        new_branch: None,
        from: None,
    };
    assert!(matches!(
        add_worktree_start(&input),
        AddWorktreeStep::Done(Err(WtpMcpError::ConfigError { .. }))
    ));
}

#[test]
fn add_worktree_new_branch_resolves_path() {
    let input = AddWorktreeInput {
        branch: None,
        new_branch: Some("feature/awesome".to_string()),
        from: Some("main".to_string()),
    };
    let (seen, result) = drive_add(input, stub);
    let output = result.expect("add worktree");
    assert_eq!(output.name, "feature/awesome");
    assert_eq!(output.path, "/repo/feature-branch");
    assert_eq!(output.branch, "feature/awesome");
    assert_eq!(
        output.hint.as_deref(),
        Some("Ask the user if they want to set the workdir to this worktree. You can run wtp cd feature/awesome (or get-worktree-path with name 'feature/awesome') and set workdir to the returned path.")
    );
    assert_eq!(seen[0], vec!["add", "-b", "feature/awesome", "main"]);
    assert_eq!(seen[1], vec!["list"]);
    assert_eq!(seen[2], vec!["cd", "feature/awesome"]);
}

#[test]
fn add_worktree_existing_branch_runs_add() {
    let input = AddWorktreeInput {
        branch: Some("feature/awesome".to_string()),
        new_branch: None,
        from: None,
    };
    let (seen, result) = drive_add(input, stub);
    assert!(result.is_ok());
    assert_eq!(seen[0], vec!["add", "feature/awesome"]);
}

#[test]
fn add_worktree_missing_from_listing_is_parse_error() {
    let input = AddWorktreeInput {
        branch: Some("ghost".to_string()),
        new_branch: None,
        from: None,
    };
    let (seen, result) = drive_add(input, stub);
    assert_eq!(seen.len(), 2);
    match result {
        Err(WtpMcpError::ParseError {
            message,
            raw_output,
        }) => {
            assert_eq!(message, "Could not find newly created worktree for branch 'ghost'");
            assert_eq!(raw_output, LIST_OUTPUT);
        }
        other => panic!("unexpected result: {other:?}"),
    }
}

#[test]
fn add_worktree_failed_add_stops() {
    let input = AddWorktreeInput {
        branch: Some("x".to_string()),
        new_branch: None,
        from: None,
    };
    let (seen, result) = drive_add(input, |_| failed(128, "fatal"));
    assert_eq!(seen.len(), 1);
    assert!(matches!(
        result,
        Err(WtpMcpError::CommandFailed { exit_code: 128, .. })
    ));
}

#[test]
fn list_worktrees_parses_stub_output() {
    let output = list_worktrees_from_output(success(LIST_OUTPUT)).expect("list worktrees");
    assert_eq!(output.worktrees.len(), 3);
    assert_eq!(output.worktrees[1].branch, "feature/awesome");
}

#[test]
fn remove_worktree_blocks_branch_delete_when_policy_forbids() {
    let policy = SecurityPolicy {
        allow_hooks: false,
        allow_branch_delete: false,
    };
    let input = RemoveWorktreeInput {
        name: "feature/awesome".to_string(),
        force: None,
        with_branch: Some(true),
        force_branch: None,
    };
    let err = remove_worktree_plan(input, &policy).expect_err("expected policy violation");
    assert!(matches!(err, WtpMcpError::PolicyViolation { .. }));

    let input = RemoveWorktreeInput {
        name: "feature/awesome".to_string(),
        force: None,
        with_branch: None,
        force_branch: Some(true),
    };
    assert!(remove_worktree_plan(input, &policy).is_err());
}

#[test]
fn remove_worktree_flags_follow_request() {
    let policy = SecurityPolicy {
        allow_hooks: false,
        allow_branch_delete: true,
    };
    let input = RemoveWorktreeInput {
        name: "feature/awesome".to_string(),
        force: Some(true),
        with_branch: Some(true),
        force_branch: Some(true),
    };
    let plan = remove_worktree_plan(input, &policy).expect("plan");
    assert_eq!(
        plan.args,
        vec!["remove", "feature/awesome", "--force", "--with-branch", "--force-branch"]
    );
    let output = remove_worktree_from_output(plan, success("")).expect("remove");
    assert_eq!(output.removed, "feature/awesome");
    assert!(output.branch_deleted);
}

#[test]
fn remove_worktree_plain() {
    let input = RemoveWorktreeInput {
        name: "feature/awesome".to_string(),
        force: Some(false),
        with_branch: None,
        force_branch: None,
    };
    let plan = remove_worktree_plan(input, &SecurityPolicy::default()).expect("plan");
    assert_eq!(plan.args, vec!["remove", "feature/awesome"]);
    assert!(!plan.branch_deleted);
    let err = remove_worktree_from_output(plan, failed(2, "dirty")).expect_err("failure");
    assert!(matches!(err, WtpMcpError::CommandFailed { exit_code: 2, .. }));
}

#[test]
fn get_worktree_path_uses_cd_output() {
    let input = GetWorktreePathInput {
        name: Some("feature/awesome".to_string()),
    };
    let args = get_worktree_path_args(&input);
    assert_eq!(args, vec!["cd", "feature/awesome"]);
    let path = worktree_path_from_output(&args, success("/repo/feature-branch\n")).expect("path");
    assert_eq!(path.path, "/repo/feature-branch");
    assert_eq!(
        get_worktree_path_args(&GetWorktreePathInput { name: None }),
        vec!["cd"]
    );
}

#[test]
fn shell_hook_and_init_return_stubbed_output() {
    let hook_args = shell_hook_args(&ShellHookInput {
        shell: "bash".to_string(),
    })
    .expect("hook args");
    assert_eq!(hook_args, vec!["hook", "bash"]);
    let hook = shell_script_from_output("bash".to_string(), &hook_args, success("hook-bash\n"))
        .expect("shell hook");
    let init_args = shell_init_args(&ShellInitInput {
        shell: "bash".to_string(),
    })
    .expect("init args");
    assert_eq!(init_args, vec!["shell-init", "bash"]);
    let init = shell_script_from_output("bash".to_string(), &init_args, success("init-bash\n"))
        .expect("shell init");
    assert!(hook.script.contains("hook-bash"));
    assert!(init.script.contains("init-bash"));
    assert_eq!(hook.shell, "bash");
    assert!(shell_hook_args(&ShellHookInput {
        shell: "tcsh".to_string()
    })
    .is_err());
}

#[test]
fn init_config_returns_path() {
    let output = init_config_from_output(success("/repo/.wtp.yml\n")).expect("init config");
    assert_eq!(output.path, "/repo/.wtp.yml");
}

#[test]
fn runner_checked_propagates_nonzero_exit() {
    let args = vec!["fail".to_string()];
    let err = wtp_mcp_rs::wtp::check_output(&args, failed(2, "fail")).expect_err("expected failure");
    match err {
        WtpMcpError::CommandFailed {
            exit_code,
            message,
            stderr,
        } => {
            assert_eq!(exit_code, 2);
            assert_eq!(message, "wtp [\"fail\"] failed");
            assert_eq!(stderr, "fail");
        }
        other => panic!("unexpected error: {other:?}"),
    }
    let out = wtp_mcp_rs::wtp::check_output(&args, success("fine")).expect("ok");
    assert_eq!(out, "fine");
}

#[test]
fn add_worktree_creates_default_wtp_config_when_missing() {
    let contents = wtp_mcp_rs::tools::worktree::DEFAULT_WTP_CONFIG;
    assert!(contents.contains("base_dir: .worktrees"));
    assert!(!contents.contains("hooks"));
}

#[test]
fn merge_worktree_returns_merge_command_for_branch() {
    let input = MergeWorktreeInput {
        name: "feature-branch".to_string(),
    };
    let out = merge_worktree_from_output(&input, success(LIST_OUTPUT)).unwrap();
    assert_eq!(out.branch, "feature/awesome");
    assert_eq!(out.command, "git merge feature/awesome");
    assert_eq!(
        out.hint,
        "Run this command from the target branch worktree (usually main)."
    );
}

#[test]
fn merge_worktree_selects_by_branch_name() {
    let input = MergeWorktreeInput {
        name: "bugfix/123".to_string(),
    };
    let out = merge_worktree_from_output(&input, success(LIST_OUTPUT)).unwrap();
    assert_eq!(out.branch, "bugfix/123");
    assert_eq!(out.command, "git merge bugfix/123");
}

#[test]
fn merge_worktree_unknown_selector_is_error() {
    let input = MergeWorktreeInput {
        name: "nope".to_string(),
    };
    match merge_worktree_from_output(&input, success(LIST_OUTPUT)) {
        Err(WtpMcpError::ConfigError { message }) => {
            assert_eq!(message, "Worktree 'nope' not found")
        }
        other => panic!("unexpected: {:?}", other.map(|o| o.command)),
    }
}

#[test]
fn merge_worktree_failed_list_is_command_failure() {
    let input = MergeWorktreeInput {
        name: "feature-branch".to_string(),
    };
    let r = merge_worktree_from_output(&input, failed(2, "boom"));
    assert!(matches!(r, Err(WtpMcpError::CommandFailed { .. })));
}
