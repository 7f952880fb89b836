use wtp_mcp_rs::config::SecurityPolicy;
use wtp_mcp_rs::types::{ResolvedWorktree, SecuritySummary, Worktree};

#[test]
fn security_summary_from_policy() {
    let policy = SecurityPolicy {
        allow_hooks: true,
        allow_branch_delete: false,
    };
    let summary = SecuritySummary::from(&policy);
    assert!(summary.allow_hooks);
    assert!(!summary.allow_branch_delete);
}

#[test]
fn resolved_worktree_from_worktree() {
    let worktree = Worktree {
        name: "wt".to_string(),
        path: "path".to_string(),
        branch: "main".to_string(),
        head: "abc123".to_string(),
        is_main: true,
    };

    let resolved = ResolvedWorktree::from(worktree);
    assert_eq!(resolved.name, "wt");
    assert_eq!(resolved.path, "path");
    assert_eq!(resolved.absolute_path, "path");
    assert!(resolved.is_main);
}

#[test]
fn worktree_clone_keeps_fields() {
    let worktree = Worktree {
        name: "a".to_string(),
        path: "/a".to_string(),
        branch: "b".to_string(),
        head: "c".to_string(),
        is_main: false,
    };
    let copy = worktree.clone();
    assert_eq!(copy.name, "a");
    assert_eq!(copy.path, "/a");
    assert_eq!(copy.branch, "b");
    assert_eq!(copy.head, "c");
    assert!(!copy.is_main);
}
