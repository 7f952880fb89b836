use wtp_mcp_rs::wtp::parse_list;

fn count(input: &str) -> usize {
    parse_list(input).unwrap().len()
}

#[test]
fn parse_list_count_empty() {
    assert_eq!(count(""), 0);
}

#[test]
fn parse_list_count_whitespace_only() {
    assert_eq!(count("   \n  \n   "), 0);
}

#[test]
fn parse_list_count_single_worktree() {
    assert_eq!(count("/path main abc123"), 1);
}

#[test]
fn parse_list_count_multiple() {
    assert_eq!(count("/path1 main abc\n/path2 feat def"), 2);
}

#[test]
fn parse_list_count_compact() {
    assert_eq!(count("/path/to/wt main abc123\n/path/to/feature feat def456"), 2);
}

#[test]
fn parse_list_count_bare_names() {
    assert_eq!(count("project-main main abc123\nfeature-branch feature def456"), 2);
}

#[test]
fn main_worktree_detection_at_symbol() {
    let worktrees = parse_list("@ main abc123").unwrap();
    assert!(worktrees[0].is_main);
}

#[test]
fn main_worktree_detection_marker() {
    let worktrees = parse_list("/path main abc (main worktree)").unwrap();
    assert!(worktrees[0].is_main);
}

#[test]
fn main_worktree_detection_regular() {
    let worktrees = parse_list("/path feat def").unwrap();
    assert!(!worktrees[0].is_main);
}

#[test]
fn normal_output_multiple_worktrees() {
    let output = r#"
/Users/dev/project/main         main      abc1234
/Users/dev/project/feature-auth feature/auth def5678
/Users/dev/project/bugfix       bugfix/123   ghi9012
"#;
    let worktrees = parse_list(output).unwrap();

    assert_eq!(worktrees.len(), 3);

    assert_eq!(worktrees[0].name, "main");
    assert_eq!(worktrees[0].path, "/Users/dev/project/main");
    assert_eq!(worktrees[0].branch, "main");
    assert_eq!(worktrees[0].head, "abc1234");
    assert!(!worktrees[0].is_main);

    assert_eq!(worktrees[1].name, "feature/auth");
    assert_eq!(worktrees[1].path, "/Users/dev/project/feature-auth");
    assert_eq!(worktrees[1].branch, "feature/auth");
    assert_eq!(worktrees[1].head, "def5678");

    assert_eq!(worktrees[2].name, "bugfix/123");
    assert_eq!(worktrees[2].branch, "bugfix/123");
}

#[test]
fn table_output_with_status_column() {
    let output = r#"
PATH                                 BRANCH             STATUS    HEAD
----                                 ------             ------    ----
@*                                   main               managed   abc1234
../../priva...ees/feature-abc        feature-abc        unmanaged def5678
"#;
    let worktrees = parse_list(output).unwrap();

    assert_eq!(worktrees.len(), 2);
    assert_eq!(worktrees[0].name, "main");
    assert_eq!(worktrees[0].path, "@");
    assert_eq!(worktrees[0].branch, "main");
    assert_eq!(worktrees[0].head, "abc1234");
    assert!(worktrees[0].is_main);

    assert_eq!(worktrees[1].name, "feature-abc");
    assert_eq!(worktrees[1].path, "../../priva...ees/feature-abc");
    assert_eq!(worktrees[1].branch, "feature-abc");
    assert_eq!(worktrees[1].head, "def5678");
    assert!(!worktrees[1].is_main);
}

#[test]
fn stub_listing_with_main_marker() {
    let output = "/repo/main main abc123 (main worktree)\nfeature-branch feature/awesome def456\n/abs/bugfix bugfix/123 aaa111\n";
    let worktrees = parse_list(output).unwrap();
    assert_eq!(worktrees.len(), 3);
    assert!(worktrees[0].is_main);
    assert_eq!(worktrees[0].path, "/repo/main");
    assert_eq!(worktrees[0].head, "abc123");
    assert_eq!(worktrees[1].branch, "feature/awesome");
    assert_eq!(worktrees[1].path, "feature-branch");
    assert!(!worktrees[1].is_main);
    assert_eq!(worktrees[2].name, "bugfix/123");
}

#[test]
fn path_with_spaces_is_joined() {
    let worktrees = parse_list("/my work/tree  main  abc").unwrap();
    assert_eq!(worktrees.len(), 1);
    assert_eq!(worktrees[0].path, "/my work/tree");
    assert_eq!(worktrees[0].branch, "main");
}

#[test]
fn dash_branch_falls_back_to_path() {
    let worktrees = parse_list("/detached - abc123\n@ - def456").unwrap();
    assert_eq!(worktrees[0].name, "/detached");
    assert_eq!(worktrees[1].name, "@");
    assert!(worktrees[1].is_main);
}

#[test]
fn short_lines_and_crlf_are_handled() {
    let worktrees = parse_list("only two\r\n/p main abc\r\n").unwrap();
    assert_eq!(worktrees.len(), 1);
    assert_eq!(worktrees[0].head, "abc");
}

#[test]
fn unicode_whitespace_separates_words() {
    let worktrees = parse_list("/p\u{00A0}main\u{3000}abc").unwrap();
    assert_eq!(worktrees.len(), 1);
    assert_eq!(worktrees[0].path, "/p");
    assert_eq!(worktrees[0].branch, "main");
    assert_eq!(worktrees[0].head, "abc");
}

#[test]
fn status_column_needs_four_words() {
    let output = "PATH BRANCH STATUS HEAD\n/a main abc\n/b feat managed def";
    let worktrees = parse_list(output).unwrap();
    assert_eq!(worktrees.len(), 2);
    assert_eq!(worktrees[0].branch, "main");
    assert_eq!(worktrees[1].branch, "feat");
    assert_eq!(worktrees[1].path, "/b");
}
