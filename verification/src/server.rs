//! Tool parameters of the MCP server, the resources it lists, and the routing
//! of resource URIs.
//!
//! The server itself (tool registration and the MCP protocol) lives with the
//! binary; it hands requests to the library through these types.
use crate::text::{chars_of, copy_range, has_prefix, same_chars, starts_with, string_of};
use vstd::prelude::*;

verus! {

/// Parameters for the `add-worktree` tool.
#[derive(Debug)]
pub struct AddWorktreeParams {
    /// Existing branch name to check out in a new worktree. Mutually exclusive with `new_branch`.
    pub branch: Option<String>,
    /// New branch name to create and check out in a new worktree. Mutually exclusive with `branch`.
    pub new_branch: Option<String>,
    /// Base ref (branch, tag, or commit) to create `new_branch` from.
    pub from: Option<String>,
}

/// Parameters for the `remove-worktree` tool.
#[derive(Debug)]
pub struct RemoveWorktreeParams {
    /// Worktree selector as returned by list-worktrees (typically a branch name).
    pub name: String,
    /// If true, remove the worktree even when there are uncommitted changes.
    pub force: Option<bool>,
    /// If true, delete the associated branch (requires allow_branch_delete=true).
    pub with_branch: Option<bool>,
    /// If true, delete the branch even if unmerged (requires allow_branch_delete=true).
    pub force_branch: Option<bool>,
}

/// Parameters for the `merge-worktree` tool.
#[derive(Debug)]
pub struct MergeWorktreeParams {
    /// Worktree selector as returned by list-worktrees (typically a branch name).
    pub name: String,
}

/// Parameters for the `get-worktree-path` tool.
#[derive(Debug)]
pub struct GetWorktreePathParams {
    /// Optional worktree selector. Omit to return the main worktree path.
    pub name: Option<String>,
}

/// Parameters for shell integration tools (`shell-hook` and `shell-init`).
#[derive(Debug)]
pub struct ShellParams {
    /// Shell type: bash, zsh, or fish.
    pub shell: String,
}

/// The resource that a URI asks for.
#[derive(Debug)]
pub enum ResourceRequest {
    /// `wtp://worktrees`
    Worktrees,
    /// `wtp://worktrees/resolved`
    WorktreesResolved,
    /// `wtp://overview`
    Overview,
    /// `wtp://worktrees/by-branch-prefix`
    WorktreesByBranchPrefix,
    /// `wtp://worktree/{name}`
    Worktree {
        /// The selector after the prefix.
        name: String,
    },
    /// Any other URI.
    Unknown,
}

/// The prefix of the URIs of single worktrees.
pub open spec fn worktree_uri_prefix() -> Seq<char> {
    "wtp://worktree/"@
}

/// The resource that `uri` asks for: one of the four fixed URIs, or a single
/// worktree named by the rest of a `wtp://worktree/` URI, or none.
pub open spec fn resource_of(uri: Seq<char>) -> ResourceRequest {
    if uri == "wtp://worktrees"@ {
        ResourceRequest::Worktrees
    } else if uri == "wtp://worktrees/resolved"@ {
        ResourceRequest::WorktreesResolved
    } else if uri == "wtp://overview"@ {
        ResourceRequest::Overview
    } else if uri == "wtp://worktrees/by-branch-prefix"@ {
        ResourceRequest::WorktreesByBranchPrefix
    } else {
        ResourceRequest::Unknown
    }
}

/// Route a resource URI.
pub fn route_resource(uri: &str) -> (r: ResourceRequest)
    ensures
        !(resource_of(uri@) is Unknown) ==> r == resource_of(uri@),
        resource_of(uri@) is Unknown && starts_with(uri@, worktree_uri_prefix()) ==> (r matches ResourceRequest::Worktree {
            name,
        } && name@ == uri@.subrange(worktree_uri_prefix().len() as int, uri@.len() as int)),
        resource_of(uri@) is Unknown && !starts_with(uri@, worktree_uri_prefix()) ==> r is Unknown,
{
    let u = chars_of(uri);
    if same_chars(&u, &chars_of("wtp://worktrees")) {
        return ResourceRequest::Worktrees;
    }
    if same_chars(&u, &chars_of("wtp://worktrees/resolved")) {
        return ResourceRequest::WorktreesResolved;
    }
    if same_chars(&u, &chars_of("wtp://overview")) {
        return ResourceRequest::Overview;
    }
    if same_chars(&u, &chars_of("wtp://worktrees/by-branch-prefix")) {
        return ResourceRequest::WorktreesByBranchPrefix;
    }
    let prefix = chars_of("wtp://worktree/");
    if has_prefix(&u, &prefix) {
        let name = copy_range(&u, prefix.len(), u.len());
        return ResourceRequest::Worktree { name: string_of(&name) };
    }
    ResourceRequest::Unknown
}

/// Message of the error for a URI that names no resource.
pub open spec fn unknown_resource_message(uri: Seq<char>) -> Seq<char> {
    "Unknown resource URI: "@ + uri
}

/// The message for a URI that names no resource.
pub fn unknown_resource_text(uri: &str) -> (m: String)
    ensures
        m@ == unknown_resource_message(uri@),
{
    let mut m = String::from_str("Unknown resource URI: ");
    m.append(uri);
    m
}

/// A resource, or resource template, that the server lists.
#[derive(Debug)]
pub struct ResourceEntry {
    /// The URI, or URI template, of the resource.
    pub uri: String,
    /// Short name of the resource.
    pub name: String,
    /// What the resource holds.
    pub description: String,
    /// MIME type of its contents.
    pub mime_type: String,
}

/// The MIME type of every resource: all are JSON documents.
pub open spec fn resource_mime_type() -> Seq<char> {
    "application/json"@
}

/// The fixed resources that the server lists, in order: URI, name, description.
pub open spec fn resource_catalog() -> Seq<(Seq<char>, Seq<char>, Seq<char>)> {
    seq![
        ("wtp://worktrees"@, "worktrees"@, "List all worktrees"@),
        (
            "wtp://worktrees/resolved"@,
            "worktrees-resolved"@,
            "List all worktrees with resolved absolute paths"@,
        ),
        (
            "wtp://overview"@,
            "overview"@,
            "Repository overview including worktrees and security settings"@,
        ),
        (
            "wtp://worktrees/by-branch-prefix"@,
            "worktrees-by-branch-prefix"@,
            "Worktrees grouped by branch prefix"@,
        ),
    ]
}

/// Whether `e` is the entry with these URI, name and description.
pub open spec fn entry_is(e: ResourceEntry, uri: Seq<char>, name: Seq<char>, description: Seq<char>) -> bool {
    &&& e.uri@ == uri
    &&& e.name@ == name
    &&& e.description@ == description
    &&& e.mime_type@ == resource_mime_type()
}

fn entry(uri: &str, name: &str, description: &str) -> (e: ResourceEntry)
    ensures
        entry_is(e, uri@, name@, description@),
{
    ResourceEntry {
        uri: String::from_str(uri),
        name: String::from_str(name),
        description: String::from_str(description),
        mime_type: String::from_str("application/json"),
    }
}

/// The resources that the server lists: the entries of `resource_catalog`, in order.
pub fn listed_resources() -> (r: Vec<ResourceEntry>)
    ensures
        r.len() == resource_catalog().len(),
        forall|i: int|
            0 <= i < r.len() ==> entry_is(
                #[trigger] r[i],
                resource_catalog()[i].0,
                resource_catalog()[i].1,
                resource_catalog()[i].2,
            ),
{
    let mut r: Vec<ResourceEntry> = Vec::new();
    r.push(entry("wtp://worktrees", "worktrees", "List all worktrees"));
    r.push(
        entry(
            "wtp://worktrees/resolved",
            "worktrees-resolved",
            "List all worktrees with resolved absolute paths",
        ),
    );
    r.push(
        entry(
            "wtp://overview",
            "overview",
            "Repository overview including worktrees and security settings",
        ),
    );
    r.push(
        entry(
            "wtp://worktrees/by-branch-prefix",
            "worktrees-by-branch-prefix",
            "Worktrees grouped by branch prefix",
        ),
    );
    r
}

/// The URI template of single worktrees.
pub open spec fn worktree_uri_template() -> Seq<char> {
    "wtp://worktree/{name}"@
}

/// The resource template that the server lists: a single worktree by name.
pub fn listed_resource_template() -> (e: ResourceEntry)
    ensures
        entry_is(e, worktree_uri_template(), "worktree"@, "Get a specific worktree by name"@),
{
    entry("wtp://worktree/{name}", "worktree", "Get a specific worktree by name")
}

/// Every resource that the server lists is one that it can read: its URI
/// routes to a known resource.
pub proof fn lemma_listed_resources_are_readable()
    ensures
        forall|i: int|
            0 <= i < resource_catalog().len() ==> !(resource_of(
                #[trigger] resource_catalog()[i].0,
            ) is Unknown),
{
}

/// A URI made from the worktree template and a name routes to that worktree:
/// it is none of the fixed URIs, and the name is what follows the prefix.
pub proof fn lemma_worktree_uri_routes(name: Seq<char>)
    ensures
        resource_of(worktree_uri_prefix() + name) is Unknown,
        starts_with(worktree_uri_prefix() + name, worktree_uri_prefix()),
        (worktree_uri_prefix() + name).subrange(
            worktree_uri_prefix().len() as int,
            (worktree_uri_prefix() + name).len() as int,
        ) == name,
{
    reveal_strlit("wtp://worktree/");
    reveal_strlit("wtp://worktrees");
    reveal_strlit("wtp://worktrees/resolved");
    reveal_strlit("wtp://overview");
    reveal_strlit("wtp://worktrees/by-branch-prefix");
    let u = worktree_uri_prefix() + name;
    assert(u[14] == '/');
    assert(u != "wtp://worktrees"@) by {
        if u.len() == "wtp://worktrees"@.len() {
            assert(u[14] != "wtp://worktrees"@[14]);
        }
    }
    assert(u != "wtp://worktrees/resolved"@) by {
        assert(u[14] != "wtp://worktrees/resolved"@[14]);
    }
    assert(u != "wtp://worktrees/by-branch-prefix"@) by {
        assert(u[14] != "wtp://worktrees/by-branch-prefix"@[14]);
    }
    assert(u != "wtp://overview"@) by {
        assert(u[6] != "wtp://overview"@[6]);
    }
    assert(u.subrange(0, 15) =~= worktree_uri_prefix());
    assert(u.subrange(15, u.len() as int) =~= name);
}

} // verus!
