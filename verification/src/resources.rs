//! Read-only resource views of a repository's worktrees.
//!
//! Running `wtp` is done by the caller; these functions turn the commands'
//! outputs into the resource values.
use crate::config::SecurityPolicy;
use crate::errors::Result;
use crate::text::{chars_of, has_prefix, starts_with, string_of, take_until, take_until_char, trim, trimmed};
use crate::types::{
    resolved_views, summary_of, worktree_views, Overview, ResolvedWorktree, ResolvedWorktreeView,
    SecuritySummary, Worktree, WorktreeView,
};
use crate::wtp_parser::{parse_list, parse_list_spec};
use crate::wtp_runner::{arg_views, check_output, command_failure, CommandOutput};
use vstd::prelude::*;

verus! {

/// Resource URI for the raw worktree list.
pub const URI_WORKTREES: &'static str = "wtp://worktrees";

/// Resource URI for resolved worktrees with absolute paths.
pub const URI_WORKTREES_RESOLVED: &'static str = "wtp://worktrees/resolved";

/// Resource URI template for a specific worktree.
pub const URI_WORKTREE_TEMPLATE: &'static str = "wtp://worktree/{name}";

/// Resource URI for the overview snapshot.
pub const URI_OVERVIEW: &'static str = "wtp://overview";

/// Resource URI for grouping by branch prefix.
pub const URI_WORKTREES_BY_BRANCH_PREFIX: &'static str = "wtp://worktrees/by-branch-prefix";

/// The arguments of `wtp list`.
pub fn list_args() -> (a: Vec<String>)
    ensures
        arg_views(a@) == seq!["list"@],
{
    let mut a: Vec<String> = Vec::new();
    a.push(String::from_str("list"));
    assert(arg_views(a@) =~= seq!["list"@]);
    a
}

/// The arguments of `wtp cd <name>`.
pub fn cd_args(name: &str) -> (a: Vec<String>)
    ensures
        arg_views(a@) == seq!["cd"@, name@],
{
    let mut a: Vec<String> = Vec::new();
    a.push(String::from_str("cd"));
    a.push(String::from_str(name));
    assert(arg_views(a@) =~= seq!["cd"@, name@]);
    a
}

/// The arguments of `wtp --version`.
pub fn version_args() -> (a: Vec<String>)
    ensures
        arg_views(a@) == seq!["--version"@],
{
    let mut a: Vec<String> = Vec::new();
    a.push(String::from_str("--version"));
    assert(arg_views(a@) =~= seq!["--version"@]);
    a
}

/// The worktrees listed by a run of `wtp list`: a command failure when it
/// exited non-zero, the parsed list otherwise.
pub fn worktrees_from_output(output: CommandOutput) -> (r: Result<Vec<Worktree>>)
    ensures
        output.exit_code == 0 ==> (r matches Ok(ws) && worktree_views(ws@) == parse_list_spec(
            output.stdout@,
        )),
        output.exit_code != 0 ==> (r matches Err(e) && command_failure(seq!["list"@], output, e)),
{
    let args = list_args();
    let stdout = check_output(&args, output)?;
    parse_list(stdout.as_str())
}

/// A worktree needs a `wtp cd` lookup for its absolute path unless its
/// printed path is already absolute.  This holds of the main worktree too,
/// which the table layout prints as `@`.
pub open spec fn needs_lookup(w: WorktreeView) -> bool {
    !starts_with(w.path, "/"@)
}

/// The absolute path of a worktree: its printed path when no lookup is
/// needed or the lookup did not succeed, otherwise the trimmed output of the
/// lookup.
pub open spec fn absolute_path_of(w: WorktreeView, lookup: Option<CommandOutput>) -> Seq<char> {
    if !needs_lookup(w) {
        w.path
    } else {
        match lookup {
            Some(o) => if o.exit_code == 0 {
                trim(o.stdout@)
            } else {
                w.path
            },
            None => w.path,
        }
    }
}

/// Whether the absolute path of `wt` has to be looked up with `wtp cd`.
pub fn needs_path_lookup(wt: &Worktree) -> (b: bool)
    ensures
        b == needs_lookup(wt@),
{
    let path = chars_of(wt.path.as_str());
    !has_prefix(&path, &chars_of("/"))
}

/// The resolved form of `wt`, given the output of `wtp cd <name>` when a
/// lookup was run.
pub fn resolve_worktree(wt: Worktree, lookup: Option<CommandOutput>) -> (r: ResolvedWorktree)
    ensures
        r@.worktree == wt@,
        r@.absolute_path == absolute_path_of(wt@, lookup),
{
    let absolute_path = if !needs_path_lookup(&wt) {
        wt.path.clone()
    } else {
        match lookup {
            Some(o) => if o.exit_code == 0 {
                let t = trimmed(&chars_of(o.stdout.as_str()));
                string_of(&t)
            } else {
                wt.path.clone()
            },
            None => wt.path.clone(),
        }
    };
    ResolvedWorktree {
        name: wt.name,
        path: wt.path,
        branch: wt.branch,
        head: wt.head,
        is_main: wt.is_main,
        absolute_path,
    }
}

/// The resolved path is absolute whenever the printed path is, or the
/// lookup succeeded and printed an absolute path.
pub proof fn lemma_resolved_path_absolute(w: WorktreeView, lookup: Option<CommandOutput>)
    requires
        starts_with(w.path, "/"@) || (lookup matches Some(o) && o.exit_code == 0 && starts_with(
            trim(o.stdout@),
            "/"@,
        )),
    ensures
        starts_with(absolute_path_of(w, lookup), "/"@),
{
}

/// The lookup output given for the worktree at `i`, if any.
pub open spec fn lookup_at(lookups: Seq<Option<CommandOutput>>, i: int) -> Option<CommandOutput> {
    if 0 <= i < lookups.len() {
        lookups[i]
    } else {
        None
    }
}

/// Resolve every worktree, in order; `lookups[i]` is the output of
/// `wtp cd` for the worktree at `i` when one was run.
pub fn resolve_worktrees(worktrees: Vec<Worktree>, lookups: Vec<Option<CommandOutput>>) -> (r: Vec<
    ResolvedWorktree,
>)
    ensures
        r@.len() == worktrees@.len(),
        forall|i: int|
            0 <= i < r@.len() ==> (#[trigger] r@[i])@.worktree == worktrees@[i]@ && r@[i]@.absolute_path
                == absolute_path_of(worktrees@[i]@, lookup_at(lookups@, i)),
{
    let mut r: Vec<ResolvedWorktree> = Vec::new();
    let mut i: usize = 0;
    while i < worktrees.len()
        invariant
            i <= worktrees@.len(),
            r@.len() == i,
            forall|k: int|
                0 <= k < i ==> (#[trigger] r@[k])@.worktree == worktrees@[k]@ && r@[k]@.absolute_path
                    == absolute_path_of(worktrees@[k]@, lookup_at(lookups@, k)),
        decreases worktrees@.len() - i,
    {
        let lookup = if i < lookups.len() {
            match &lookups[i] {
                Some(o) => Some(
                    CommandOutput {
                        stdout: o.stdout.clone(),
                        stderr: o.stderr.clone(),
                        exit_code: o.exit_code,
                    },
                ),
                None => None,
            }
        } else {
            None
        };
        assert(lookup == lookup_at(lookups@, i as int));
        let resolved = resolve_worktree(worktrees[i].clone(), lookup);
        r.push(resolved);
        i += 1;
    }
    r
}

/// The worktree is selected by `name`: its selector, branch or path equals it.
pub open spec fn selected_by(w: ResolvedWorktreeView, name: Seq<char>) -> bool {
    w.worktree.name == name || w.worktree.branch == name || w.worktree.path == name
}

/// The first worktree of `ws` selected by `name`, if any.
pub open spec fn first_selected(ws: Seq<ResolvedWorktreeView>, name: Seq<char>) -> Option<
    ResolvedWorktreeView,
>
    decreases ws.len(),
{
    if ws.len() == 0 {
        None
    } else if selected_by(ws[0], name) {
        Some(ws[0])
    } else {
        first_selected(ws.drop_first(), name)
    }
}

/// The worktree's name, branch or path is `name`.
pub open spec fn has_name_branch_or_path(w: ResolvedWorktreeView, name: Seq<char>) -> bool {
    ||| w.worktree.name == name
    ||| w.worktree.branch == name
    ||| w.worktree.path == name
}

/// Looking up `name` finds a worktree exactly when some worktree's name,
/// branch or path equals `name`, whether or not it is the main worktree; the
/// one found is the first such worktree.
pub proof fn lemma_first_selected_is_first_match(ws: Seq<ResolvedWorktreeView>, name: Seq<char>)
    ensures
        first_selected(ws, name) is None <==> forall|i: int|
            0 <= i < ws.len() ==> !has_name_branch_or_path(#[trigger] ws[i], name),
        first_selected(ws, name) matches Some(w) ==> exists|i: int|
            {
                &&& 0 <= i < ws.len()
                &&& #[trigger] ws[i] == w
                &&& has_name_branch_or_path(w, name)
                &&& forall|j: int| 0 <= j < i ==> !has_name_branch_or_path(#[trigger] ws[j], name)
            },
    decreases ws.len(),
{
    if ws.len() > 0 {
        let d = ws.drop_first();
        lemma_first_selected_is_first_match(d, name);
        if has_name_branch_or_path(ws[0], name) {
            assert(ws[0] == ws[0]);
        } else {
            assert(first_selected(ws, name) == first_selected(d, name));
            if first_selected(ws, name) is None {
                assert forall|i: int| 0 <= i < ws.len() implies !has_name_branch_or_path(
                    #[trigger] ws[i],
                    name,
                ) by {
                    if i > 0 {
                        assert(ws[i] == d[i - 1]);
                    }
                }
            } else {
                let w = first_selected(ws, name)->0;
                let i = choose|i: int|
                    {
                        &&& 0 <= i < d.len()
                        &&& #[trigger] d[i] == w
                        &&& has_name_branch_or_path(w, name)
                        &&& forall|j: int|
                            0 <= j < i ==> !has_name_branch_or_path(#[trigger] d[j], name)
                    };
                assert(ws[i + 1] == w);
                assert forall|j: int| 0 <= j < i + 1 implies !has_name_branch_or_path(
                    #[trigger] ws[j],
                    name,
                ) by {
                    if j > 0 {
                        assert(ws[j] == d[j - 1]);
                    }
                }
            }
            if forall|i: int| 0 <= i < ws.len() ==> !has_name_branch_or_path(#[trigger] ws[i], name) {
                assert forall|i: int| 0 <= i < d.len() implies !has_name_branch_or_path(
                    #[trigger] d[i],
                    name,
                ) by {
                    assert(d[i] == ws[i + 1]);
                }
            }
        }
    }
}

/// Look up a resolved worktree by its name, branch or path: the first one
/// selected, or `None` when none is.
pub fn find_worktree_by_name(worktrees: Vec<ResolvedWorktree>, name: &str) -> (r: Option<
    ResolvedWorktree,
>)
    ensures
        match r {
            Some(w) => first_selected(resolved_views(worktrees@), name@) == Some(w@),
            None => first_selected(resolved_views(worktrees@), name@) is None,
        },
{
    let ghost all = resolved_views(worktrees@);
    let target = String::from_str(name);
    let mut i: usize = 0;
    assert(all.subrange(0, all.len() as int) =~= all);
    while i < worktrees.len()
        invariant
            resolved_views(worktrees@) == all,
            target@ == name@,
            i <= worktrees@.len(),
            first_selected(all, name@) == first_selected(
                all.subrange(i as int, all.len() as int),
                name@,
            ),
        decreases worktrees@.len() - i,
    {
        let ghost rest = all.subrange(i as int, all.len() as int);
        assert(rest[0] == worktrees@[i as int]@);
        if worktrees[i].name == target || worktrees[i].branch == target || worktrees[i].path
            == target {
            assert(selected_by(rest[0], name@));
            let w = worktrees[i].clone();
            return Some(w);
        }
        assert(rest.drop_first() =~= all.subrange(i + 1, all.len() as int));
        i += 1;
    }
    None
}

/// The absolute path of the first main worktree, or the empty text.
pub open spec fn main_root(ws: Seq<ResolvedWorktreeView>) -> Seq<char>
    decreases ws.len(),
{
    if ws.len() == 0 {
        seq![]
    } else if ws[0].worktree.is_main {
        ws[0].absolute_path
    } else {
        main_root(ws.drop_first())
    }
}

/// The repository root of the overview is the absolute path of the first
/// main worktree of the list, and empty exactly when no worktree is main.
pub proof fn lemma_main_root_is_first_main(ws: Seq<ResolvedWorktreeView>)
    ensures
        (forall|i: int| 0 <= i < ws.len() ==> !(#[trigger] ws[i]).worktree.is_main) ==> main_root(
            ws,
        ) == Seq::<char>::empty(),
        forall|i: int|
            0 <= i < ws.len() && (#[trigger] ws[i]).worktree.is_main && (forall|j: int|
                0 <= j < i ==> !ws[j].worktree.is_main) ==> main_root(ws) == ws[i].absolute_path,
    decreases ws.len(),
{
    if ws.len() > 0 {
        let d = ws.drop_first();
        lemma_main_root_is_first_main(d);
        if !ws[0].worktree.is_main {
            assert(main_root(ws) == main_root(d));
            if forall|i: int| 0 <= i < ws.len() ==> !(#[trigger] ws[i]).worktree.is_main {
                assert forall|i: int| 0 <= i < d.len() implies !(#[trigger] d[i]).worktree.is_main by {
                    assert(d[i] == ws[i + 1]);
                }
            }
            assert forall|i: int|
                0 <= i < ws.len() && (#[trigger] ws[i]).worktree.is_main && (forall|j: int|
                    0 <= j < i ==> !ws[j].worktree.is_main) implies main_root(ws)
                == ws[i].absolute_path by {
                assert(i > 0);
                assert(d[i - 1] == ws[i]);
                assert forall|j: int| 0 <= j < i - 1 implies !d[j].worktree.is_main by {
                    assert(d[j] == ws[j + 1]);
                }
            }
        } else {
            assert forall|i: int|
                0 <= i < ws.len() && (#[trigger] ws[i]).worktree.is_main && (forall|j: int|
                    0 <= j < i ==> !ws[j].worktree.is_main) implies main_root(ws)
                == ws[i].absolute_path by {
                if i > 0 {
                    assert(!ws[0].worktree.is_main);
                }
            }
        }
    }
}

/// The version that a run of `wtp --version` reports: its trimmed output
/// when it succeeded.
pub open spec fn reported_version(output: Option<CommandOutput>) -> Option<Seq<char>> {
    match output {
        Some(o) => if o.exit_code == 0 {
            Some(trim(o.stdout@))
        } else {
            None
        },
        None => None,
    }
}

fn main_absolute_path(worktrees: &Vec<ResolvedWorktree>) -> (r: String)
    ensures
        r@ == main_root(resolved_views(worktrees@)),
{
    let mut i: usize = 0;
    assert(resolved_views(worktrees@).subrange(0, worktrees@.len() as int) =~= resolved_views(
        worktrees@,
    ));
    while i < worktrees.len()
        invariant
            i <= worktrees@.len(),
            main_root(resolved_views(worktrees@)) == main_root(
                resolved_views(worktrees@).subrange(i as int, worktrees@.len() as int),
            ),
        decreases worktrees@.len() - i,
    {
        let ghost rest = resolved_views(worktrees@).subrange(i as int, worktrees@.len() as int);
        assert(rest[0] == worktrees@[i as int]@);
        if worktrees[i].is_main {
            return worktrees[i].absolute_path.clone();
        }
        assert(rest.drop_first() =~= resolved_views(worktrees@).subrange(
            i + 1,
            worktrees@.len() as int,
        ));
        i += 1;
    }
    String::new()
}

/// Build an overview snapshot from the resolved worktrees, the output of
/// `wtp --version` (if it could be run), and the security policy.
pub fn overview_from(
    worktrees: Vec<ResolvedWorktree>,
    version: Option<CommandOutput>,
    security: &SecurityPolicy,
) -> (o: Overview)
    ensures
        o.worktrees == worktrees,
        o.repo_root@ == main_root(resolved_views(worktrees@)),
        match reported_version(version) {
            Some(v) => o.wtp_version matches Some(s) && s@ == v,
            None => o.wtp_version is None,
        },
        o.security == summary_of(*security),
{
    let repo_root = main_absolute_path(&worktrees);
    let wtp_version = match version {
        Some(o) => if o.exit_code == 0 {
            let t = trimmed(&chars_of(o.stdout.as_str()));
            Some(string_of(&t))
        } else {
            None
        },
        None => None,
    };
    Overview {
        repo_root,
        wtp_version,
        worktrees,
        security: SecuritySummary::from(security),
    }
}

/// The group key of a branch: the part before the first `/`.
pub open spec fn branch_prefix(branch: Seq<char>) -> Seq<char> {
    take_until(branch, '/')
}

/// The group key of a branch (`feature/auth` → `feature`, `main` → `main`).
pub fn extract_branch_prefix(branch: &str) -> (r: String)
    ensures
        r@ == branch_prefix(branch@),
{
    let chars = chars_of(branch);
    let p = take_until_char(&chars, '/');
    string_of(&p)
}

/// The group key of a branch is a prefix of it without `/`, and is the whole
/// branch when the branch has no `/`.
pub proof fn lemma_branch_prefix(branch: Seq<char>)
    ensures
        branch_prefix(branch).len() <= branch.len(),
        branch_prefix(branch) == branch.subrange(0, branch_prefix(branch).len() as int),
        !branch_prefix(branch).contains('/'),
        !branch.contains('/') ==> branch_prefix(branch) == branch,
    decreases branch.len(),
{
    if branch.len() > 0 && branch[0] != '/' {
        lemma_branch_prefix(branch.drop_first());
        let rest = take_until(branch.drop_first(), '/');
        assert(branch_prefix(branch) == seq![branch[0]] + rest);
        assert(branch_prefix(branch) =~= branch.subrange(0, branch_prefix(branch).len() as int));
        assert forall|k: int| 0 <= k < branch_prefix(branch).len() implies branch_prefix(branch)[k]
            != '/' by {
            if k > 0 {
                assert(branch_prefix(branch)[k] == rest[k - 1]);
            }
        }
        if !branch.contains('/') {
            assert forall|k: int| 0 <= k < branch.drop_first().len() implies branch.drop_first()[k]
                != '/' by {
                assert(branch.drop_first()[k] == branch[k + 1]);
            }
            assert(branch_prefix(branch) =~= branch);
        }
    } else if branch.len() > 0 {
        assert(branch.contains('/')) by {
            assert(branch[0] == '/');
        }
        assert(branch_prefix(branch) =~= branch.subrange(0, 0));
    } else {
        assert(branch_prefix(branch) =~= branch.subrange(0, 0));
    }
}

/// The group key of a branch that has a `/` stops right before its first
/// `/`: together with [`lemma_branch_prefix`], it is the longest `/`-free
/// prefix of the branch.
pub proof fn lemma_branch_prefix_reaches_slash(branch: Seq<char>)
    ensures
        branch.contains('/') ==> branch_prefix(branch).len() < branch.len() && branch[branch_prefix(
            branch,
        ).len() as int] == '/',
    decreases branch.len(),
{
    if branch.contains('/') && branch[0] != '/' {
        let d = branch.drop_first();
        let k = choose|k: int| 0 <= k < branch.len() && branch[k] == '/';
        assert(d[k - 1] == '/');
        lemma_branch_prefix_reaches_slash(d);
        assert(branch_prefix(branch) == seq![branch[0]] + branch_prefix(d));
        assert(branch[branch_prefix(branch).len() as int] == d[branch_prefix(d).len() as int]);
    }
}

/// Worktrees that share a branch prefix.
#[derive(Debug)]
pub struct BranchGroup {
    /// The shared branch prefix.
    pub prefix: String,
    /// The worktrees with that prefix, in listing order.
    pub worktrees: Vec<Worktree>,
}

/// The worktrees of `ws` whose branch has prefix `key`, in order.
pub open spec fn with_prefix(ws: Seq<WorktreeView>, key: Seq<char>) -> Seq<WorktreeView>
    decreases ws.len(),
{
    if ws.len() == 0 {
        seq![]
    } else {
        let prev = with_prefix(ws.drop_last(), key);
        if branch_prefix(ws.last().branch) == key {
            prev.push(ws.last())
        } else {
            prev
        }
    }
}

/// The text of a sequence of groups.
pub open spec fn group_views(gs: Seq<BranchGroup>) -> Seq<(Seq<char>, Seq<WorktreeView>)> {
    gs.map_values(|g: BranchGroup| (g.prefix@, worktree_views(g.worktrees@)))
}

/// `gs` groups `ws` by branch prefix: the keys are distinct, each group holds
/// exactly the worktrees with its key (at least one), and every worktree's
/// key has a group.
pub open spec fn is_grouping(ws: Seq<WorktreeView>, gs: Seq<(Seq<char>, Seq<WorktreeView>)>) -> bool {
    &&& forall|i: int, j: int| 0 <= i < j < gs.len() ==> gs[i].0 != gs[j].0
    &&& forall|i: int|
        0 <= i < gs.len() ==> #[trigger] gs[i].1 == with_prefix(ws, gs[i].0) && gs[i].1.len() > 0
    &&& forall|k: int| 0 <= k < ws.len() ==> has_group(gs, branch_prefix(#[trigger] ws[k].branch))
}

/// Some group of `gs` has the key `key`.
pub open spec fn has_group(gs: Seq<(Seq<char>, Seq<WorktreeView>)>, key: Seq<char>) -> bool {
    exists|i: int| 0 <= i < gs.len() && #[trigger] gs[i].0 == key
}

proof fn lemma_with_prefix_absent(ws: Seq<WorktreeView>, key: Seq<char>)
    requires
        forall|k: int| 0 <= k < ws.len() ==> branch_prefix(#[trigger] ws[k].branch) != key,
    ensures
        with_prefix(ws, key).len() == 0,
    decreases ws.len(),
{
    if ws.len() > 0 {
        assert(branch_prefix(ws[ws.len() - 1].branch) != key);
        lemma_with_prefix_absent(ws.drop_last(), key);
    }
}

/// Group worktrees by the prefix of their branch name.
pub fn group_by_branch_prefix(worktrees: Vec<Worktree>) -> (gs: Vec<BranchGroup>)
    ensures
        is_grouping(worktree_views(worktrees@), group_views(gs@)),
{
    let mut groups: Vec<BranchGroup> = Vec::new();
    let mut i: usize = 0;
    while i < worktrees.len()
        invariant
            i <= worktrees@.len(),
            is_grouping(worktree_views(worktrees@).subrange(0, i as int), group_views(groups@)),
        decreases worktrees@.len() - i,
    {
        let ghost ws = worktree_views(worktrees@).subrange(0, i as int);
        let ghost ws2 = worktree_views(worktrees@).subrange(0, i + 1);
        let ghost old_gv = group_views(groups@);
        assert(ws2.drop_last() =~= ws);
        assert(ws2.last() == worktrees@[i as int]@);
        let w = worktrees[i].clone();
        let key = extract_branch_prefix(w.branch.as_str());
        let mut j: usize = 0;
        while j < groups.len() && groups[j].prefix != key
            invariant
                j <= groups@.len(),
                group_views(groups@) == old_gv,
                forall|t: int| 0 <= t < j ==> #[trigger] old_gv[t].0 != key@,
            decreases groups@.len() - j,
        {
            j += 1;
        }
        if j < groups.len() {
            assert(old_gv[j as int].0 == key@);
            let mut g = groups.remove(j);
            let ghost gw = worktree_views(g.worktrees@);
            g.worktrees.push(w);
            assert(worktree_views(g.worktrees@) =~= gw.push(ws2.last()));
            groups.insert(j, g);
            let ghost new_gv = group_views(groups@);
            assert(new_gv =~= old_gv.update(j as int, (key@, gw.push(ws2.last()))));
            assert forall|a: int, b: int| 0 <= a < b < new_gv.len() implies new_gv[a].0
                != new_gv[b].0 by {
                assert(new_gv[a].0 == old_gv[a].0);
                assert(new_gv[b].0 == old_gv[b].0);
            }
            assert forall|t: int| 0 <= t < new_gv.len() implies #[trigger] new_gv[t].1 == with_prefix(
                ws2,
                new_gv[t].0,
            ) && new_gv[t].1.len() > 0 by {
                assert(old_gv[t].1 == with_prefix(ws, old_gv[t].0));
                if t != j {
                    assert(old_gv[t].0 != key@);
                    assert(new_gv[t] == old_gv[t]);
                } else {
                    assert(gw == with_prefix(ws, key@));
                }
            }
            assert forall|k: int| 0 <= k < ws2.len() implies has_group(new_gv, branch_prefix(#[trigger] ws2[k].branch)) by {
                if k < ws.len() {
                    assert(ws2[k] == ws[k]);
                    assert(has_group(old_gv, branch_prefix(ws[k].branch)));
                    let t = choose|t: int|
                        0 <= t < old_gv.len() && #[trigger] old_gv[t].0 == branch_prefix(
                            ws[k].branch,
                        );
                    assert(new_gv[t].0 == old_gv[t].0);
                } else {
                    assert(new_gv[j as int].0 == key@);
                }
            }
            assert(is_grouping(ws2, new_gv));
        } else {
            proof {
                assert forall|k: int| 0 <= k < ws.len() implies branch_prefix(
                    #[trigger] ws[k].branch,
                ) != key@ by {
                    if branch_prefix(ws[k].branch) == key@ {
                        assert(has_group(old_gv, branch_prefix(ws[k].branch)));
                        let t = choose|t: int|
                            0 <= t < old_gv.len() && #[trigger] old_gv[t].0 == branch_prefix(
                                ws[k].branch,
                            );
                        assert(old_gv[t].0 != key@);
                    }
                }
                lemma_with_prefix_absent(ws, key@);
            }
            let mut members: Vec<Worktree> = Vec::new();
            members.push(w);
            let ghost mv = worktree_views(members@);
            assert(mv =~= seq![ws2.last()]);
            groups.push(BranchGroup { prefix: key, worktrees: members });
            let ghost new_gv = group_views(groups@);
            assert(new_gv =~= old_gv.push((key@, mv)));
            assert forall|a: int, b: int| 0 <= a < b < new_gv.len() implies new_gv[a].0
                != new_gv[b].0 by {
                if b == old_gv.len() {
                    assert(old_gv[a].0 != key@);
                }
            }
            assert forall|t: int| 0 <= t < new_gv.len() implies #[trigger] new_gv[t].1 == with_prefix(
                ws2,
                new_gv[t].0,
            ) && new_gv[t].1.len() > 0 by {
                if t < old_gv.len() {
                    assert(old_gv[t].1 == with_prefix(ws, old_gv[t].0));
                    assert(old_gv[t].0 != key@);
                    assert(new_gv[t] == old_gv[t]);
                } else {
                    assert(with_prefix(ws, key@) =~= seq![]);
                }
            }
            assert forall|k: int| 0 <= k < ws2.len() implies has_group(new_gv, branch_prefix(#[trigger] ws2[k].branch)) by {
                if k < ws.len() {
                    assert(ws2[k] == ws[k]);
                    assert(has_group(old_gv, branch_prefix(ws[k].branch)));
                    let t = choose|t: int|
                        0 <= t < old_gv.len() && #[trigger] old_gv[t].0 == branch_prefix(
                            ws[k].branch,
                        );
                    assert(new_gv[t].0 == old_gv[t].0);
                } else {
                    assert(new_gv[old_gv.len() as int].0 == key@);
                }
            }
            assert(is_grouping(ws2, new_gv));
        }
        i += 1;
    }
    assert(worktree_views(worktrees@).subrange(0, worktrees@.len() as int) =~= worktree_views(
        worktrees@,
    ));
    groups
}

} // verus!
