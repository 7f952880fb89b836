//! Shared data types used across tools, resources, and parsers.
use crate::config::SecurityPolicy;
use vstd::prelude::*;

verus! {

/// Worktree entry as reported by `wtp list`.
#[derive(Debug)]
pub struct Worktree {
    /// Worktree selector accepted by `wtp` commands (typically a branch name).
    pub name: String,
    /// Path as printed by `wtp` (may be relative or abbreviated).
    pub path: String,
    /// Git branch checked out in this worktree.
    pub branch: String,
    /// HEAD commit hash for this worktree.
    pub head: String,
    /// True if this is the main worktree.
    pub is_main: bool,
}

/// The text content of a [`Worktree`].
pub struct WorktreeView {
    /// The selector.
    pub name: Seq<char>,
    /// The path as printed.
    pub path: Seq<char>,
    /// The branch.
    pub branch: Seq<char>,
    /// The HEAD commit.
    pub head: Seq<char>,
    /// Whether it is the main worktree.
    pub is_main: bool,
}

impl View for Worktree {
    type V = WorktreeView;

    open spec fn view(&self) -> WorktreeView {
        WorktreeView {
            name: self.name@,
            path: self.path@,
            branch: self.branch@,
            head: self.head@,
            is_main: self.is_main,
        }
    }
}

/// Worktree entry with a resolved absolute path.
#[derive(Debug)]
pub struct ResolvedWorktree {
    /// Worktree selector accepted by `wtp` commands (typically a branch name).
    pub name: String,
    /// Path as printed by `wtp` (may be relative or abbreviated).
    pub path: String,
    /// Git branch checked out in this worktree.
    pub branch: String,
    /// HEAD commit hash for this worktree.
    pub head: String,
    /// True if this is the main worktree.
    pub is_main: bool,
    /// Absolute filesystem path for this worktree.
    pub absolute_path: String,
}

/// The text content of a [`ResolvedWorktree`].
pub struct ResolvedWorktreeView {
    /// The fields shared with [`Worktree`].
    pub worktree: WorktreeView,
    /// The absolute path.
    pub absolute_path: Seq<char>,
}

impl View for ResolvedWorktree {
    type V = ResolvedWorktreeView;

    open spec fn view(&self) -> ResolvedWorktreeView {
        ResolvedWorktreeView {
            worktree: WorktreeView {
                name: self.name@,
                path: self.path@,
                branch: self.branch@,
                head: self.head@,
                is_main: self.is_main,
            },
            absolute_path: self.absolute_path@,
        }
    }
}

impl Clone for Worktree {
    /// A copy with the same text in every field.
    fn clone(&self) -> (r: Self)
        ensures
            r == *self,
    {
        Worktree {
            name: self.name.clone(),
            path: self.path.clone(),
            branch: self.branch.clone(),
            head: self.head.clone(),
            is_main: self.is_main,
        }
    }
}

impl Clone for ResolvedWorktree {
    /// A copy with the same text in every field.
    fn clone(&self) -> (r: Self)
        ensures
            r == *self,
    {
        ResolvedWorktree {
            name: self.name.clone(),
            path: self.path.clone(),
            branch: self.branch.clone(),
            head: self.head.clone(),
            is_main: self.is_main,
            absolute_path: self.absolute_path.clone(),
        }
    }
}

/// Summary of security policy flags exposed via resources.
#[derive(Debug, Clone, Copy)]
pub struct SecuritySummary {
    /// True when hooks are allowed by policy.
    pub allow_hooks: bool,
    /// True when branch deletion is allowed by policy.
    pub allow_branch_delete: bool,
}

/// Repository overview resource.
#[derive(Debug, Clone)]
pub struct Overview {
    /// Absolute path of the main worktree, if available.
    pub repo_root: String,
    /// `wtp` version string if resolved.
    pub wtp_version: Option<String>,
    /// Resolved worktree inventory.
    pub worktrees: Vec<ResolvedWorktree>,
    /// Security policy summary for this repo.
    pub security: SecuritySummary,
}

/// The views of a sequence of worktrees.
pub open spec fn worktree_views(ws: Seq<Worktree>) -> Seq<WorktreeView> {
    ws.map_values(|w: Worktree| w@)
}

/// The views of a sequence of resolved worktrees.
pub open spec fn resolved_views(ws: Seq<ResolvedWorktree>) -> Seq<ResolvedWorktreeView> {
    ws.map_values(|w: ResolvedWorktree| w@)
}

/// A summary mirrors the two policy flags.
pub open spec fn summary_of(policy: SecurityPolicy) -> SecuritySummary {
    SecuritySummary {
        allow_hooks: policy.allow_hooks,
        allow_branch_delete: policy.allow_branch_delete,
    }
}

/// A worktree as resolved without a lookup: its printed path is its absolute path.
pub open spec fn resolved_as_printed(w: WorktreeView) -> ResolvedWorktreeView {
    ResolvedWorktreeView { worktree: w, absolute_path: w.path }
}

impl<'a> From<&'a SecurityPolicy> for SecuritySummary {
    fn from(policy: &'a SecurityPolicy) -> (s: Self) {
        SecuritySummary {
            allow_hooks: policy.allow_hooks,
            allow_branch_delete: policy.allow_branch_delete,
        }
    }
}

impl<'a> vstd::std_specs::convert::FromSpecImpl<&'a SecurityPolicy> for SecuritySummary {
    open spec fn obeys_from_spec() -> bool {
        true
    }

    open spec fn from_spec(policy: &'a SecurityPolicy) -> SecuritySummary {
        summary_of(*policy)
    }
}

impl From<Worktree> for ResolvedWorktree {
    fn from(wt: Worktree) -> (r: Self) {
        let absolute_path = wt.path.clone();
        ResolvedWorktree {
            name: wt.name,
            absolute_path,
            path: wt.path,
            branch: wt.branch,
            head: wt.head,
            is_main: wt.is_main,
        }
    }
}

impl vstd::std_specs::convert::FromSpecImpl<Worktree> for ResolvedWorktree {
    open spec fn obeys_from_spec() -> bool {
        true
    }

    open spec fn from_spec(wt: Worktree) -> ResolvedWorktree {
        ResolvedWorktree {
            name: wt.name,
            path: wt.path,
            branch: wt.branch,
            head: wt.head,
            is_main: wt.is_main,
            absolute_path: wt.path,
        }
    }
}

/// Converting a worktree keeps its fields and takes the printed path as the
/// absolute path.
pub proof fn lemma_resolved_from_worktree(wt: Worktree)
    ensures
        <ResolvedWorktree as vstd::std_specs::convert::FromSpec<Worktree>>::from_spec(wt)@
            == resolved_as_printed(wt@),
{
}

} // verus!
