use wtp_mcp_rs::config::SecurityPolicy;
use wtp_mcp_rs::errors::ErrorClass;
use wtp_mcp_rs::security::PolicyGuard;
use wtp_mcp_rs::resources::{
    URI_OVERVIEW, URI_WORKTREES, URI_WORKTREES_BY_BRANCH_PREFIX, URI_WORKTREES_RESOLVED,
    URI_WORKTREE_TEMPLATE,
};
use wtp_mcp_rs::server::{
    listed_resource_template, listed_resources, route_resource, unknown_resource_text,
    ResourceRequest,
};

#[test]
fn resources_list_and_read() {
    assert!(matches!(route_resource(URI_WORKTREES), ResourceRequest::Worktrees));
    assert!(matches!(
        route_resource(URI_WORKTREES_RESOLVED),
        ResourceRequest::WorktreesResolved
    ));
    assert!(matches!(route_resource(URI_OVERVIEW), ResourceRequest::Overview));
    assert!(matches!(
        route_resource(URI_WORKTREES_BY_BRANCH_PREFIX),
        ResourceRequest::WorktreesByBranchPrefix
    ));
}

#[test]
fn worktree_uri_routes_with_name() {
    let uri = URI_WORKTREE_TEMPLATE.replace("{name}", "feature/awesome");
    match route_resource(&uri) {
        ResourceRequest::Worktree { name } => assert_eq!(name, "feature/awesome"),
        other => panic!("unexpected route: {other:?}"),
    }
}

#[test]
fn unknown_uri_routes_nowhere() {
    assert!(matches!(route_resource("wtp://missing"), ResourceRequest::Unknown));
    assert!(matches!(route_resource("wtp://worktrees/"), ResourceRequest::Unknown));
}

#[test]
fn remove_worktree_branch_delete_blocked() {
    let guard = PolicyGuard::from_config(&SecurityPolicy {
        allow_hooks: false,
        allow_branch_delete: false,
    });
    let err = guard.check_branch_delete(true).expect_err("expected policy error");
    assert_eq!(err.error_class(), ErrorClass::InvalidRequest);
}

#[test]
fn listed_resources_are_the_four_fixed_uris() {
    let listed = listed_resources();
    let uris: Vec<&str> = listed.iter().map(|e| e.uri.as_str()).collect();
    assert_eq!(
        uris,
        vec![
            URI_WORKTREES,
            URI_WORKTREES_RESOLVED,
            URI_OVERVIEW,
            URI_WORKTREES_BY_BRANCH_PREFIX
        ]
    );
    assert_eq!(listed[0].name, "worktrees");
    assert_eq!(listed[0].description, "List all worktrees");
    assert_eq!(listed[3].name, "worktrees-by-branch-prefix");
    assert!(listed.iter().all(|e| e.mime_type == "application/json"));
}

#[test]
fn every_listed_resource_routes_to_a_known_resource() {
    for entry in listed_resources() {
        assert!(!matches!(
            route_resource(&entry.uri),
            ResourceRequest::Unknown | ResourceRequest::Worktree { .. }
        ));
    }
}

#[test]
fn listed_template_is_the_worktree_uri() {
    let template = listed_resource_template();
    assert_eq!(template.uri, URI_WORKTREE_TEMPLATE);
    assert_eq!(template.name, "worktree");
    assert_eq!(template.description, "Get a specific worktree by name");
    assert_eq!(template.mime_type, "application/json");
}

#[test]
fn resource_not_found_messages() {
    assert_eq!(
        unknown_resource_text("wtp://nope"),
        "Unknown resource URI: wtp://nope"
    );
    assert_eq!(
        wtp_mcp_rs::tools::worktree_not_found_message("feature/x"),
        "Worktree 'feature/x' not found"
    );
}
