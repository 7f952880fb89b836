use wtp_mcp_rs::config::SecurityPolicy;
use wtp_mcp_rs::resources::{
    cd_args, extract_branch_prefix, find_worktree_by_name, group_by_branch_prefix,
    needs_path_lookup, overview_from, resolve_worktree, resolve_worktrees, worktrees_from_output,
};
use wtp_mcp_rs::types::{ResolvedWorktree, SecuritySummary, Worktree};
use wtp_mcp_rs::wtp::CommandOutput;

const LIST_OUTPUT: &str = "/repo/main main abc123 (main worktree)\n\
feature-branch feature/awesome def456\n\
/abs/bugfix bugfix/123 aaa111\n";

fn ok(stdout: &str) -> CommandOutput {
    CommandOutput {
        stdout: stdout.to_string(),
        stderr: String::new(),
        exit_code: 0,
    }
}

fn listed() -> Vec<Worktree> {
    worktrees_from_output(ok(LIST_OUTPUT)).expect("list")
}

fn resolved() -> Vec<ResolvedWorktree> {
    let worktrees = listed();
    let lookups: Vec<Option<CommandOutput>> = worktrees
        .iter()
        .map(|wt| {
            if needs_path_lookup(wt) {
                Some(ok("/repo/feature-branch\n"))
            } else {
                None
            }
        })
        .collect();
    resolve_worktrees(worktrees, lookups)
}

#[test]
fn test_extract_branch_prefix() {
    assert_eq!(extract_branch_prefix("feature/auth"), "feature");
    assert_eq!(extract_branch_prefix("bugfix/123"), "bugfix");
    assert_eq!(extract_branch_prefix("main"), "main");
    assert_eq!(extract_branch_prefix("release/v1.0.0"), "release");
}

#[test]
fn test_security_summary_from_policy() {
    let policy = SecurityPolicy {
        allow_hooks: true,
        allow_branch_delete: false,
    };
    let summary = SecuritySummary::from(&policy);
    assert!(summary.allow_hooks);
    assert!(!summary.allow_branch_delete);
}

#[test]
fn worktrees_from_failed_list_is_command_failure() {
    let err = worktrees_from_output(CommandOutput {
        stdout: String::new(),
        stderr: "boom".to_string(),
        exit_code: 3,
    })
    .expect_err("failure");
    match err {
        wtp_mcp_rs::errors::WtpMcpError::CommandFailed {
            exit_code,
            stderr,
            message,
        } => {
            assert_eq!(exit_code, 3);
            assert_eq!(stderr, "boom");
            assert_eq!(message, "wtp [\"list\"] failed");
        }
        other => panic!("unexpected error: {other:?}"),
    }
}

#[test]
fn only_relative_worktrees_need_lookup() {
    let worktrees = listed();
    assert!(!needs_path_lookup(&worktrees[0]));
    assert!(needs_path_lookup(&worktrees[1]));
    assert!(!needs_path_lookup(&worktrees[2]));
    assert_eq!(cd_args(&worktrees[1].name), vec!["cd", "feature/awesome"]);
}

#[test]
fn resources_resolve_paths_and_overview() {
    let resolved = resolved();
    assert_eq!(resolved.len(), 3);
    let feature = resolved
        .iter()
        .find(|wt| wt.name == "feature/awesome")
        .expect("feature worktree");
    assert_eq!(feature.absolute_path, "/repo/feature-branch");
    let main = resolved.iter().find(|wt| wt.is_main).expect("main");
    assert_eq!(main.absolute_path, "/repo/main");
    assert_eq!(resolved[2].absolute_path, "/abs/bugfix");

    let overview = overview_from(
        resolved,
        Some(ok("wtp 1.2.3\n")),
        &SecurityPolicy {
            allow_hooks: true,
            allow_branch_delete: false,
        },
    );
    assert_eq!(overview.repo_root, "/repo/main");
    assert_eq!(overview.wtp_version.as_deref(), Some("wtp 1.2.3"));
    assert!(overview.security.allow_hooks);
    assert!(!overview.security.allow_branch_delete);
}

#[test]
fn failed_lookup_keeps_printed_path() {
    let wt = listed().remove(1);
    let failed = CommandOutput {
        stdout: "ignored".to_string(),
        stderr: String::new(),
        exit_code: 1,
    };
    let r = resolve_worktree(wt, Some(failed));
    assert_eq!(r.absolute_path, "feature-branch");
}

#[test]
fn overview_reports_root_version_and_policy() {
    let overview = overview_from(
        resolved(),
        Some(ok("wtp 1.2.3\n")),
        &SecurityPolicy {
            allow_hooks: true,
            allow_branch_delete: false,
        },
    );
    assert_eq!(overview.repo_root, "/repo/main");
    assert_eq!(overview.wtp_version.as_deref(), Some("wtp 1.2.3"));
    assert!(overview.security.allow_hooks);
    assert!(!overview.security.allow_branch_delete);
    assert_eq!(overview.worktrees.len(), 3);
}

#[test]
fn overview_without_main_or_version() {
    let mut worktrees = resolved();
    worktrees.remove(0);
    let failed = CommandOutput {
        stdout: String::new(),
        stderr: String::new(),
        exit_code: 1,
    };
    let overview = overview_from(worktrees, Some(failed), &SecurityPolicy::default());
    assert_eq!(overview.repo_root, "");
    assert!(overview.wtp_version.is_none());
}

#[test]
fn resources_group_worktrees_by_branch_prefix() {
    let groups = group_by_branch_prefix(listed());
    let size = |key: &str| {
        groups
            .iter()
            .find(|g| g.prefix == key)
            .map(|g| g.worktrees.len())
    };
    assert_eq!(groups.len(), 3);
    assert_eq!(size("feature"), Some(1));
    assert_eq!(size("bugfix"), Some(1));
    assert_eq!(size("main"), Some(1));
}

#[test]
fn grouping_collects_shared_prefixes() {
    let output = "/a feature/x a1\n/b main b1\n/c feature/y c1\n";
    let groups = group_by_branch_prefix(worktrees_from_output(ok(output)).unwrap());
    assert_eq!(groups.len(), 2);
    assert_eq!(groups[0].prefix, "feature");
    assert_eq!(groups[0].worktrees.len(), 2);
    assert_eq!(groups[0].worktrees[1].branch, "feature/y");
    assert_eq!(groups[1].prefix, "main");
}

#[test]
fn resources_lookup_by_name() {
    let by_path = find_worktree_by_name(resolved(), "feature-branch");
    assert!(by_path.is_some());
    assert_eq!(by_path.as_ref().unwrap().name, "feature/awesome");

    let by_branch = find_worktree_by_name(resolved(), "feature/awesome");
    assert!(by_branch.is_some());
    assert_eq!(by_branch.unwrap().name, "feature/awesome");

    assert!(find_worktree_by_name(resolved(), "missing").is_none());
}

const TABLE_OUTPUT: &str = "PATH                 BRANCH        STATUS    HEAD\n\
----                 ------        ------    ----\n\
@*                   main          managed   abc1234\n\
../wt/feature-abc    feature-abc   unmanaged def5678\n";

#[test]
fn main_worktree_printed_as_alias_is_looked_up() {
    let worktrees = worktrees_from_output(ok(TABLE_OUTPUT)).expect("list");
    assert_eq!(worktrees[0].path, "@");
    assert!(worktrees[0].is_main);
    assert!(needs_path_lookup(&worktrees[0]));
    assert!(needs_path_lookup(&worktrees[1]));
    let lookups = vec![
        Some(ok("/repo/main\n")),
        Some(ok("/repo/wt/feature-abc\n")),
    ];
    let resolved = resolve_worktrees(worktrees, lookups);
    assert_eq!(resolved[0].absolute_path, "/repo/main");
    assert_eq!(resolved[1].absolute_path, "/repo/wt/feature-abc");
    assert!(resolved.iter().all(|w| w.absolute_path.starts_with('/')));
    let overview = overview_from(resolved, None, &SecurityPolicy::default());
    assert_eq!(overview.repo_root, "/repo/main");
}
