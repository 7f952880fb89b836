//! Worktree lifecycle tool helpers.
//!
//! `list-worktrees` and `remove-worktree` are one `wtp` run each.
//! `add-worktree` is a short conversation with `wtp` (add, list, cd), written
//! as a step function: the caller runs the command of each step and hands its
//! output back, until the step is done.
use crate::config::SecurityPolicy;
use crate::errors::{Result, WtpMcpError};
use crate::security::{branch_delete_blocked, branch_delete_blocked_message};
use crate::text::{chars_of, opt_text, string_of, trim, trimmed};
use crate::types::{worktree_views, Worktree, WorktreeView};
use crate::wtp_parser::{parse_list, parse_list_spec};
use crate::wtp_runner::{arg_views, check_output, command_failure, CommandOutput};
use vstd::prelude::*;

verus! {

/// Input for listing worktrees.
#[derive(Debug)]
pub struct ListWorktreesInput {}

/// Output for listing worktrees.
#[derive(Debug)]
pub struct ListWorktreesOutput {
    /// List of worktrees with their names, paths, branches, HEADs, and main marker.
    pub worktrees: Vec<Worktree>,
}

/// Input for adding a worktree.
#[derive(Debug)]
pub struct AddWorktreeInput {
    /// Existing branch to check out into a new worktree. Mutually exclusive with `new_branch`.
    pub branch: Option<String>,
    /// New branch to create and check out into a new worktree. Mutually exclusive with `branch`.
    pub new_branch: Option<String>,
    /// Base ref to create `new_branch` from.
    pub from: Option<String>,
}

/// Output for adding a worktree.
#[derive(Debug)]
pub struct AddWorktreeOutput {
    /// Worktree selector accepted by `wtp` commands (use for remove or path lookup).
    pub name: String,
    /// Absolute path to the created worktree.
    pub path: String,
    /// Branch checked out in the created worktree.
    pub branch: String,
    /// Optional hint for next actions (e.g., ask to switch to the new worktree).
    pub hint: Option<String>,
}

/// Input for removing a worktree.
#[derive(Debug)]
pub struct RemoveWorktreeInput {
    /// Worktree selector from list-worktrees (typically a branch name).
    pub name: String,
    /// If true, remove the worktree even when there are uncommitted changes.
    pub force: Option<bool>,
    /// If true, delete the associated branch (requires allow_branch_delete=true).
    pub with_branch: Option<bool>,
    /// If true, delete the branch even if unmerged (requires allow_branch_delete=true).
    pub force_branch: Option<bool>,
}

/// Output for removing a worktree.
#[derive(Debug)]
pub struct RemoveWorktreeOutput {
    /// Worktree selector that was removed.
    pub removed: String,
    /// True if the branch was deleted along with the worktree.
    pub branch_deleted: bool,
}

/// The `.wtp.yml` written before `add-worktree` when the repository has none:
/// worktrees go under `.worktrees`, and no hooks are configured.
pub const DEFAULT_WTP_CONFIG: &'static str = "version: \"1.0\"\ndefaults:\n  base_dir: .worktrees\n";

/// The result of `list-worktrees` from the run of `wtp list`.
pub fn list_worktrees_from_output(output: CommandOutput) -> (r: Result<ListWorktreesOutput>)
    ensures
        output.exit_code == 0 ==> (r matches Ok(o) && worktree_views(o.worktrees@)
            == parse_list_spec(output.stdout@)),
        output.exit_code != 0 ==> (r matches Err(e) && command_failure(seq!["list"@], output, e)),
{
    let worktrees = crate::resources::worktrees_from_output(output)?;
    Ok(ListWorktreesOutput { worktrees })
}

// ---------------------------------------------------------------------------
// add-worktree
// ---------------------------------------------------------------------------

/// Where an `add-worktree` conversation stands.
#[derive(Debug)]
pub enum AddWorktreeStage {
    /// `wtp add` is running for this branch.
    Add {
        /// The branch of the new worktree.
        branch: String,
    },
    /// `wtp list` is running to find the new worktree.
    List {
        /// The branch of the new worktree.
        branch: String,
    },
    /// `wtp cd` is running for the new worktree.
    Locate {
        /// The branch of the new worktree.
        branch: String,
        /// The new worktree as listed.
        created: Worktree,
    },
}

/// A `wtp` command to run, and the stage it belongs to.
#[derive(Debug)]
pub struct AddWorktreeRun {
    /// Arguments of the command.
    pub args: Vec<String>,
    /// The stage that the command's output continues.
    pub stage: AddWorktreeStage,
}

/// The next step of `add-worktree`.
#[derive(Debug)]
pub enum AddWorktreeStep {
    /// Run a command and resume with its output.
    Run(AddWorktreeRun),
    /// The tool's result.
    Done(Result<AddWorktreeOutput>),
}

/// `s` is the `wtp add` stage for `branch`.
pub open spec fn stage_is_add(s: AddWorktreeStage, branch: String) -> bool {
    s matches AddWorktreeStage::Add { branch: b } && b == branch
}

/// `s` is the `wtp list` stage for `branch`.
pub open spec fn stage_is_list(s: AddWorktreeStage, branch: String) -> bool {
    s matches AddWorktreeStage::List { branch: b } && b == branch
}

/// `s` is the `wtp cd` stage for `branch` and the listed worktree `created`.
pub open spec fn stage_is_locate(s: AddWorktreeStage, branch: String, created: WorktreeView) -> bool {
    s matches AddWorktreeStage::Locate { branch: b, created: c } && b == branch && c@ == created
}

/// Message of the error for a request with both `branch` and `new_branch`.
pub open spec fn exclusive_branch_message() -> Seq<char> {
    "'branch' and 'new_branch' are mutually exclusive; provide only one"@
}

/// Message of the error for a request with neither `branch` nor `new_branch`.
pub open spec fn missing_branch_message() -> Seq<char> {
    "Either 'branch' or 'new_branch' must be specified"@
}

/// Message of the error when the new worktree is missing from the listing.
pub open spec fn not_found_message(branch: Seq<char>) -> Seq<char> {
    "Could not find newly created worktree for branch '"@ + branch + "'"@
}

/// The hint returned with a new worktree selected by `name`.
pub open spec fn workdir_hint(name: Seq<char>) -> Seq<char> {
    "Ask the user if they want to set the workdir to this worktree. You can run wtp cd "@ + name
        + " (or get-worktree-path with name '"@ + name
        + "') and set workdir to the returned path."@
}

/// The arguments of `wtp add` for a new branch: `add -b <branch>`, followed
/// by the base ref when one is given.
pub open spec fn add_new_branch_args(branch: Seq<char>, from: Option<Seq<char>>) -> Seq<Seq<char>> {
    match from {
        Some(f) => seq!["add"@, "-b"@, branch, f],
        None => seq!["add"@, "-b"@, branch],
    }
}

/// `wtp add` for a new branch always creates it: the arguments are `add`,
/// `-b` and the branch, then the base ref as a fourth argument exactly when
/// one is given.
pub proof fn lemma_add_new_branch_args(branch: Seq<char>, from: Option<Seq<char>>)
    ensures
        ({
            let a = add_new_branch_args(branch, from);
            &&& a.len() == if from is Some { 4int } else { 3int }
            &&& a[0] == "add"@
            &&& a[1] == "-b"@
            &&& a[2] == branch
            &&& from matches Some(f) ==> a[3] == f
        }),
{
}

/// The first worktree of `ws` on branch `branch`, if any.
pub open spec fn first_on_branch(ws: Seq<WorktreeView>, branch: Seq<char>) -> Option<WorktreeView>
    decreases ws.len(),
{
    if ws.len() == 0 {
        None
    } else if ws[0].branch == branch {
        Some(ws[0])
    } else {
        first_on_branch(ws.drop_first(), branch)
    }
}

proof fn lemma_first_on_branch_member(ws: Seq<WorktreeView>, branch: Seq<char>)
    ensures
        first_on_branch(ws, branch) matches Some(w) ==> exists|i: int|
            0 <= i < ws.len() && #[trigger] ws[i] == w && w.branch == branch,
    decreases ws.len(),
{
    if ws.len() > 0 && ws[0].branch != branch {
        lemma_first_on_branch_member(ws.drop_first(), branch);
        if let Some(w) = first_on_branch(ws, branch) {
            let i = choose|i: int|
                0 <= i < ws.drop_first().len() && #[trigger] ws.drop_first()[i] == w && w.branch
                    == branch;
            assert(ws[i + 1] == w);
        }
    } else if ws.len() > 0 {
        assert(ws[0] == ws[0]);
    }
}

/// The worktree located after `wtp add` is the first listed worktree on the
/// branch, and one is located exactly when some listed worktree is on it.
pub proof fn lemma_first_on_branch_is_first_match(ws: Seq<WorktreeView>, branch: Seq<char>)
    ensures
        first_on_branch(ws, branch) is None <==> forall|i: int|
            0 <= i < ws.len() ==> (#[trigger] ws[i]).branch != branch,
        first_on_branch(ws, branch) matches Some(w) ==> exists|i: int|
            {
                &&& 0 <= i < ws.len()
                &&& #[trigger] ws[i] == w
                &&& w.branch == branch
                &&& forall|j: int| 0 <= j < i ==> (#[trigger] ws[j]).branch != branch
            },
    decreases ws.len(),
{
    if ws.len() > 0 {
        let d = ws.drop_first();
        lemma_first_on_branch_is_first_match(d, branch);
        if ws[0].branch != branch {
            assert(first_on_branch(ws, branch) == first_on_branch(d, branch));
            if first_on_branch(ws, branch) is None {
                assert forall|i: int| 0 <= i < ws.len() implies (#[trigger] ws[i]).branch
                    != branch by {
                    if i > 0 {
                        assert(ws[i] == d[i - 1]);
                    }
                }
            } else {
                let w = first_on_branch(ws, branch)->0;
                let i = choose|i: int|
                    {
                        &&& 0 <= i < d.len()
                        &&& #[trigger] d[i] == w
                        &&& w.branch == branch
                        &&& forall|j: int| 0 <= j < i ==> (#[trigger] d[j]).branch != branch
                    };
                assert(ws[i + 1] == w);
                assert forall|j: int| 0 <= j < i + 1 implies (#[trigger] ws[j]).branch
                    != branch by {
                    if j > 0 {
                        assert(ws[j] == d[j - 1]);
                    }
                }
            }
            if forall|i: int| 0 <= i < ws.len() ==> (#[trigger] ws[i]).branch != branch {
                assert forall|i: int| 0 <= i < d.len() implies (#[trigger] d[i]).branch
                    != branch by {
                    assert(d[i] == ws[i + 1]);
                }
            }
        } else {
            assert(ws[0] == ws[0]);
        }
    }
}

/// The worktree's name, branch or path is `name`.
pub open spec fn named_by(w: WorktreeView, name: Seq<char>) -> bool {
    ||| w.name == name
    ||| w.branch == name
    ||| w.path == name
}

/// `merge-worktree` picks the first listed worktree whose name, branch or
/// path is the selector, and picks one exactly when such a worktree exists.
pub proof fn lemma_first_selected_worktree_is_first_match(ws: Seq<WorktreeView>, name: Seq<char>)
    ensures
        first_selected_worktree(ws, name) is None <==> forall|i: int|
            0 <= i < ws.len() ==> !named_by(#[trigger] ws[i], name),
        first_selected_worktree(ws, name) matches Some(w) ==> exists|i: int|
            {
                &&& 0 <= i < ws.len()
                &&& #[trigger] ws[i] == w
                &&& named_by(w, name)
                &&& forall|j: int| 0 <= j < i ==> !named_by(#[trigger] ws[j], name)
            },
    decreases ws.len(),
{
    if ws.len() > 0 {
        let d = ws.drop_first();
        lemma_first_selected_worktree_is_first_match(d, name);
        if !named_by(ws[0], name) {
            assert(first_selected_worktree(ws, name) == first_selected_worktree(d, name));
            if first_selected_worktree(ws, name) is None {
                assert forall|i: int| 0 <= i < ws.len() implies !named_by(#[trigger] ws[i], name) by {
                    if i > 0 {
                        assert(ws[i] == d[i - 1]);
                    }
                }
            } else {
                let w = first_selected_worktree(ws, name)->0;
                let i = choose|i: int|
                    {
                        &&& 0 <= i < d.len()
                        &&& #[trigger] d[i] == w
                        &&& named_by(w, name)
                        &&& forall|j: int| 0 <= j < i ==> !named_by(#[trigger] d[j], name)
                    };
                assert(ws[i + 1] == w);
                assert forall|j: int| 0 <= j < i + 1 implies !named_by(#[trigger] ws[j], name) by {
                    if j > 0 {
                        assert(ws[j] == d[j - 1]);
                    }
                }
            }
            if forall|i: int| 0 <= i < ws.len() ==> !named_by(#[trigger] ws[i], name) {
                assert forall|i: int| 0 <= i < d.len() implies !named_by(#[trigger] d[i], name) by {
                    assert(d[i] == ws[i + 1]);
                }
            }
        } else {
            assert(ws[0] == ws[0]);
        }
    }
}

/// The worktree that `add-worktree` locates for a branch other than `-` in a
/// `wtp list` output is on that branch and is selected by it, so the tool
/// reports the branch as the new worktree's selector.
pub proof fn lemma_created_worktree_selected_by_branch(listing: Seq<char>, branch: Seq<char>)
    requires
        branch != "-"@,
    ensures
        first_on_branch(parse_list_spec(listing), branch) matches Some(w) ==> w.branch == branch
            && w.name == branch,
{
    let ws = parse_list_spec(listing);
    lemma_first_on_branch_member(ws, branch);
    crate::wtp_parser::lemma_parse_list_fields(listing);
    if let Some(w) = first_on_branch(ws, branch) {
        let i = choose|i: int| 0 <= i < ws.len() && #[trigger] ws[i] == w && w.branch == branch;
        assert(ws[i] == w);
    }
}

/// Start `add-worktree`: reject a request with both or neither of `branch`
/// and `new_branch`; otherwise run `wtp add` for the requested branch.
pub fn add_worktree_start(input: &AddWorktreeInput) -> (step: AddWorktreeStep)
    ensures
        input.branch is Some && input.new_branch is Some ==> (step matches AddWorktreeStep::Done(
            Err(WtpMcpError::ConfigError { message }),
        ) && message@ == exclusive_branch_message()),
        input.branch is None && input.new_branch is None ==> (step matches AddWorktreeStep::Done(
            Err(WtpMcpError::ConfigError { message }),
        ) && message@ == missing_branch_message()),
        input.branch is None && input.new_branch is Some ==> (step matches AddWorktreeStep::Run(
            run,
        ) && arg_views(run.args@) == add_new_branch_args(
            input.new_branch->0@,
            opt_text(input.from),
        ) && stage_is_add(run.stage, input.new_branch->0)),
        input.branch is Some && input.new_branch is None ==> (step matches AddWorktreeStep::Run(
            run,
        ) && arg_views(run.args@) == seq!["add"@, input.branch->0@] && stage_is_add(
            run.stage,
            input.branch->0,
        )),
{
    if input.branch.is_some() && input.new_branch.is_some() {
        return AddWorktreeStep::Done(
            Err(
                WtpMcpError::ConfigError {
                    message: String::from_str(
                        "'branch' and 'new_branch' are mutually exclusive; provide only one",
                    ),
                },
            ),
        );
    }
    match &input.new_branch {
        Some(new_branch) => {
            let mut args: Vec<String> = Vec::new();
            args.push(String::from_str("add"));
            args.push(String::from_str("-b"));
            args.push(new_branch.clone());
            match &input.from {
                Some(from) => {
                    args.push(from.clone());
                },
                None => {},
            }
            assert(arg_views(args@) =~= add_new_branch_args(new_branch@, opt_text(input.from)));
            AddWorktreeStep::Run(
                AddWorktreeRun { args, stage: AddWorktreeStage::Add { branch: new_branch.clone() } },
            )
        },
        None => match &input.branch {
            Some(branch) => {
                let mut args: Vec<String> = Vec::new();
                args.push(String::from_str("add"));
                args.push(branch.clone());
                assert(arg_views(args@) =~= seq!["add"@, branch@]);
                AddWorktreeStep::Run(
                    AddWorktreeRun { args, stage: AddWorktreeStage::Add { branch: branch.clone() } },
                )
            },
            None => AddWorktreeStep::Done(
                Err(
                    WtpMcpError::ConfigError {
                        message: String::from_str(
                            "Either 'branch' or 'new_branch' must be specified",
                        ),
                    },
                ),
            ),
        },
    }
}

fn find_on_branch(worktrees: &Vec<Worktree>, branch: &String) -> (r: Option<Worktree>)
    ensures
        match r {
            Some(w) => first_on_branch(worktree_views(worktrees@), branch@) == Some(w@),
            None => first_on_branch(worktree_views(worktrees@), branch@) is None,
        },
{
    let ghost all = worktree_views(worktrees@);
    let mut i: usize = 0;
    assert(all.subrange(0, all.len() as int) =~= all);
    while i < worktrees.len()
        invariant
            all == worktree_views(worktrees@),
            i <= worktrees@.len(),
            first_on_branch(all, branch@) == first_on_branch(
                all.subrange(i as int, all.len() as int),
                branch@,
            ),
        decreases worktrees@.len() - i,
    {
        let ghost rest = all.subrange(i as int, all.len() as int);
        assert(rest[0] == worktrees@[i as int]@);
        if worktrees[i].branch == *branch {
            return Some(worktrees[i].clone());
        }
        assert(rest.drop_first() =~= all.subrange(i + 1, all.len() as int));
        i += 1;
    }
    None
}

fn workdir_hint_text(name: &String) -> (h: String)
    ensures
        h@ == workdir_hint(name@),
{
    let mut h = String::from_str(
        "Ask the user if they want to set the workdir to this worktree. You can run wtp cd ",
    );
    h.append(name.as_str());
    h.append(" (or get-worktree-path with name '");
    h.append(name.as_str());
    h.append("') and set workdir to the returned path.");
    h
}

/// Continue `add-worktree` with the output of the command of `run`.
///
/// A failed command ends the tool with that failure.  After `wtp add`, the
/// worktrees are listed; the first one on the new branch is looked up with
/// `wtp cd <name>` (its absence ends the tool with a parse error carrying the
/// listing); the output of that lookup, trimmed, is the new worktree's path.
pub fn add_worktree_resume(run: AddWorktreeRun, output: CommandOutput) -> (step: AddWorktreeStep)
    ensures
        output.exit_code != 0 ==> (step matches AddWorktreeStep::Done(Err(e)) && command_failure(
            arg_views(run.args@),
            output,
            e,
        )),
        output.exit_code == 0 ==> match run.stage {
            AddWorktreeStage::Add { branch } => step matches AddWorktreeStep::Run(next) && arg_views(
                next.args@,
            ) == seq!["list"@] && stage_is_list(next.stage, branch),
            AddWorktreeStage::List { branch } => match first_on_branch(
                parse_list_spec(output.stdout@),
                branch@,
            ) {
                Some(w) => step matches AddWorktreeStep::Run(next) && arg_views(next.args@)
                    == seq!["cd"@, w.name] && stage_is_locate(next.stage, branch, w),
                None => step matches AddWorktreeStep::Done(
                    Err(WtpMcpError::ParseError { message, raw_output }),
                ) && message@ == not_found_message(branch@) && raw_output == output.stdout,
            },
            AddWorktreeStage::Locate { branch, created } => step matches AddWorktreeStep::Done(
                Ok(o),
            ) && o.name == created.name && o.path@ == trim(output.stdout@) && o.branch == branch
                && (o.hint matches Some(h) && h@ == workdir_hint(created.name@)),
        },
{
    let stdout = match check_output(&run.args, output) {
        Ok(s) => s,
        Err(e) => {
            return AddWorktreeStep::Done(Err(e));
        },
    };
    match run.stage {
        AddWorktreeStage::Add { branch } => {
            let args = crate::resources::list_args();
            AddWorktreeStep::Run(AddWorktreeRun { args, stage: AddWorktreeStage::List { branch } })
        },
        AddWorktreeStage::List { branch } => {
            let worktrees = match parse_list(stdout.as_str()) {
                Ok(ws) => ws,
                Err(e) => {
                    return AddWorktreeStep::Done(Err(e));
                },
            };
            match find_on_branch(&worktrees, &branch) {
                Some(created) => {
                    let args = crate::resources::cd_args(created.name.as_str());
                    AddWorktreeStep::Run(
                        AddWorktreeRun { args, stage: AddWorktreeStage::Locate { branch, created } },
                    )
                },
                None => {
                    let mut message = String::from_str(
                        "Could not find newly created worktree for branch '",
                    );
                    message.append(branch.as_str());
                    message.append("'");
                    AddWorktreeStep::Done(
                        Err(WtpMcpError::ParseError { message, raw_output: stdout }),
                    )
                },
            }
        },
        AddWorktreeStage::Locate { branch, created } => {
            let path = trimmed(&chars_of(stdout.as_str()));
            let hint = workdir_hint_text(&created.name);
            AddWorktreeStep::Done(
                Ok(
                    AddWorktreeOutput {
                        name: created.name,
                        path: string_of(&path),
                        branch,
                        hint: Some(hint),
                    },
                ),
            )
        },
    }
}

// ---------------------------------------------------------------------------
// merge-worktree
// ---------------------------------------------------------------------------

/// Input for `merge-worktree`.
#[derive(Debug)]
pub struct MergeWorktreeInput {
    /// Worktree selector from list-worktrees (typically a branch name).
    pub name: String,
}

/// Output for `merge-worktree`.
#[derive(Debug)]
pub struct MergeWorktreeOutput {
    /// Branch of the selected worktree.
    pub branch: String,
    /// The git command that merges the branch.
    pub command: String,
    /// Where to run the command.
    pub hint: String,
}

/// The first worktree of `ws` selected by `name` (its selector, branch or path).
pub open spec fn first_selected_worktree(ws: Seq<WorktreeView>, name: Seq<char>) -> Option<WorktreeView>
    decreases ws.len(),
{
    if ws.len() == 0 {
        None
    } else if ws[0].name == name || ws[0].branch == name || ws[0].path == name {
        Some(ws[0])
    } else {
        first_selected_worktree(ws.drop_first(), name)
    }
}

/// The hint returned with a merge command.
pub open spec fn merge_hint() -> Seq<char> {
    "Run this command from the target branch worktree (usually main)."@
}

/// Message of the error for a selector that no worktree has.
pub open spec fn unknown_worktree_message(name: Seq<char>) -> Seq<char> {
    "Worktree '"@ + name + "' not found"@
}

/// The message for a worktree selector that no worktree has.
pub fn worktree_not_found_message(name: &str) -> (m: String)
    ensures
        m@ == unknown_worktree_message(name@),
{
    let mut m = String::from_str("Worktree '");
    m.append(name);
    m.append("' not found");
    m
}

fn find_selected(worktrees: &Vec<Worktree>, name: &String) -> (r: Option<Worktree>)
    ensures
        match r {
            Some(w) => first_selected_worktree(worktree_views(worktrees@), name@) == Some(w@),
            None => first_selected_worktree(worktree_views(worktrees@), name@) is None,
        },
{
    let ghost all = worktree_views(worktrees@);
    let mut i: usize = 0;
    assert(all.subrange(0, all.len() as int) =~= all);
    while i < worktrees.len()
        invariant
            all == worktree_views(worktrees@),
            i <= worktrees@.len(),
            first_selected_worktree(all, name@) == first_selected_worktree(
                all.subrange(i as int, all.len() as int),
                name@,
            ),
        decreases worktrees@.len() - i,
    {
        let ghost rest = all.subrange(i as int, all.len() as int);
        assert(rest[0] == worktrees@[i as int]@);
        if worktrees[i].name == *name || worktrees[i].branch == *name || worktrees[i].path
            == *name {
            return Some(worktrees[i].clone());
        }
        assert(rest.drop_first() =~= all.subrange(i + 1, all.len() as int));
        i += 1;
    }
    None
}

/// The result of `merge-worktree` from the run of `wtp list`: the branch of
/// the selected worktree and the `git merge <branch>` command, or an error
/// when no worktree is selected.
pub fn merge_worktree_from_output(input: &MergeWorktreeInput, output: CommandOutput) -> (r: Result<
    MergeWorktreeOutput,
>)
    ensures
        output.exit_code != 0 ==> (r matches Err(e) && command_failure(seq!["list"@], output, e)),
        output.exit_code == 0 ==> match first_selected_worktree(
            parse_list_spec(output.stdout@),
            input.name@,
        ) {
            Some(w) => r matches Ok(o) && o.branch@ == w.branch && o.command@ == "git merge "@
                + w.branch && o.hint@ == merge_hint(),
            None => r matches Err(WtpMcpError::ConfigError { message }) && message@
                == unknown_worktree_message(input.name@),
        },
{
    let worktrees = crate::resources::worktrees_from_output(output)?;
    match find_selected(&worktrees, &input.name) {
        Some(w) => {
            let mut command = String::from_str("git merge ");
            command.append(w.branch.as_str());
            Ok(
                MergeWorktreeOutput {
                    branch: w.branch,
                    command,
                    hint: String::from_str(
                        "Run this command from the target branch worktree (usually main).",
                    ),
                },
            )
        },
        None => {
            Err(WtpMcpError::ConfigError { message: worktree_not_found_message(input.name.as_str()) })
        },
    }
}

// ---------------------------------------------------------------------------
// remove-worktree
// ---------------------------------------------------------------------------

/// The `wtp remove` command to run and what its success reports.
#[derive(Debug)]
pub struct RemoveWorktreePlan {
    /// Arguments of `wtp remove`.
    pub args: Vec<String>,
    /// Worktree selector being removed.
    pub removed: String,
    /// The branch is deleted along with the worktree.
    pub branch_deleted: bool,
}

/// An optional flag, absent meaning `false`.
pub open spec fn flag(f: Option<bool>) -> bool {
    f == Some(true)
}

/// The arguments of `wtp remove`: the selector, then `--force`,
/// `--with-branch` and `--force-branch` as requested.
pub open spec fn remove_args(name: Seq<char>, force: bool, with_branch: bool, force_branch: bool) -> Seq<
    Seq<char>,
> {
    seq!["remove"@, name] + (if force {
        seq!["--force"@]
    } else {
        seq![]
    }) + (if with_branch {
        seq!["--with-branch"@]
    } else {
        seq![]
    }) + (if force_branch {
        seq!["--force-branch"@]
    } else {
        seq![]
    })
}

/// `wtp remove` names the worktree first and passes each requested flag
/// once: `--force` exactly when forced, `--with-branch` exactly when the
/// branch goes too, `--force-branch` exactly when its deletion is forced.
pub proof fn lemma_remove_args(name: Seq<char>, force: bool, with_branch: bool, force_branch: bool)
    ensures
        ({
            let a = remove_args(name, force, with_branch, force_branch);
            let flags = a.subrange(2, a.len() as int);
            &&& a.len() >= 2
            &&& a[0] == "remove"@
            &&& a[1] == name
            &&& flags.contains("--force"@) <==> force
            &&& flags.contains("--with-branch"@) <==> with_branch
            &&& flags.contains("--force-branch"@) <==> force_branch
            &&& flags.len() == (if force { 1int } else { 0int }) + (if with_branch { 1int } else {
                0int
            }) + (if force_branch { 1int } else { 0int })
        }),
{
    reveal_strlit("--force");
    reveal_strlit("--with-branch");
    reveal_strlit("--force-branch");
    let f = "--force"@;
    let w = "--with-branch"@;
    let b = "--force-branch"@;
    assert(f.len() != w.len() && f.len() != b.len() && w.len() != b.len());
    let a = remove_args(name, force, with_branch, force_branch);
    let flags = a.subrange(2, a.len() as int);
    let fs: Seq<Seq<char>> = if force { seq![f] } else { seq![] };
    let ws: Seq<Seq<char>> = if with_branch { seq![w] } else { seq![] };
    let bs: Seq<Seq<char>> = if force_branch { seq![b] } else { seq![] };
    assert(flags =~= fs + ws + bs);
    assert(force ==> flags[0] == f);
    assert(with_branch ==> flags[fs.len() as int] == w);
    assert(force_branch ==> flags[(fs.len() + ws.len()) as int] == b);
    assert(flags.contains(f) ==> force) by {
        if flags.contains(f) {
            let k = choose|k: int| 0 <= k < flags.len() && flags[k] == f;
            if k < fs.len() {
            } else if k < fs.len() + ws.len() {
                assert(flags[k] == w);
            } else {
                assert(flags[k] == b);
            }
        }
    }
    assert(flags.contains(w) ==> with_branch) by {
        if flags.contains(w) {
            let k = choose|k: int| 0 <= k < flags.len() && flags[k] == w;
            if k < fs.len() {
                assert(flags[k] == f);
            } else if k < fs.len() + ws.len() {
            } else {
                assert(flags[k] == b);
            }
        }
    }
    assert(flags.contains(b) ==> force_branch) by {
        if flags.contains(b) {
            let k = choose|k: int| 0 <= k < flags.len() && flags[k] == b;
            if k < fs.len() {
                assert(flags[k] == f);
            } else if k < fs.len() + ws.len() {
                assert(flags[k] == w);
            }
        }
    }
}

/// Plan `remove-worktree`: refuse branch deletion (`with_branch` or
/// `force_branch`) unless the policy allows it; otherwise run `wtp remove`
/// with the requested flags.
pub fn remove_worktree_plan(input: RemoveWorktreeInput, policy: &SecurityPolicy) -> (r: Result<
    RemoveWorktreePlan,
>)
    ensures
        (flag(input.with_branch) || flag(input.force_branch)) && !policy.allow_branch_delete ==> (
        r matches Err(e) && e matches WtpMcpError::PolicyViolation { message } && message@
            == branch_delete_blocked_message()),
        !((flag(input.with_branch) || flag(input.force_branch)) && !policy.allow_branch_delete)
            ==> (r matches Ok(p) && arg_views(p.args@) == remove_args(
            input.name@,
            flag(input.force),
            flag(input.with_branch),
            flag(input.force_branch),
        ) && p.removed == input.name && p.branch_deleted == (flag(input.with_branch) || flag(
            input.force_branch,
        ))),
{
    let with_branch = match input.with_branch {
        Some(b) => b,
        None => false,
    };
    let force = match input.force {
        Some(b) => b,
        None => false,
    };
    let force_branch = match input.force_branch {
        Some(b) => b,
        None => false,
    };
    if with_branch && !policy.allow_branch_delete {
        return Err(branch_delete_blocked());
    }
    let mut args: Vec<String> = Vec::new();
    args.push(String::from_str("remove"));
    args.push(input.name.clone());
    if force {
        args.push(String::from_str("--force"));
    }
    if with_branch {
        args.push(String::from_str("--with-branch"));
    }
    if force_branch {
        if !policy.allow_branch_delete {
            return Err(branch_delete_blocked());
        }
        args.push(String::from_str("--force-branch"));
    }
    assert(arg_views(args@) =~= remove_args(input.name@, force, with_branch, force_branch));
    Ok(RemoveWorktreePlan { args, removed: input.name, branch_deleted: with_branch || force_branch })
}

/// The result of `remove-worktree` from the run of its plan.
pub fn remove_worktree_from_output(plan: RemoveWorktreePlan, output: CommandOutput) -> (r: Result<
    RemoveWorktreeOutput,
>)
    ensures
        output.exit_code == 0 ==> (r matches Ok(o) && o.removed == plan.removed
            && o.branch_deleted == plan.branch_deleted),
        output.exit_code != 0 ==> (r matches Err(e) && command_failure(
            arg_views(plan.args@),
            output,
            e,
        )),
{
    check_output(&plan.args, output)?;
    Ok(RemoveWorktreeOutput { removed: plan.removed, branch_deleted: plan.branch_deleted })
}

/// The flags of a planned `wtp remove` (everything after the selector) ask
/// for branch deletion only when the policy allows branch deletion.
pub proof fn lemma_branch_deletion_needs_permission(
    name: Seq<char>,
    force: bool,
    with_branch: bool,
    force_branch: bool,
    allow_branch_delete: bool,
)
    requires
        !((with_branch || force_branch) && !allow_branch_delete),
    ensures
        ({
            let a = remove_args(name, force, with_branch, force_branch);
            let flags = a.subrange(2, a.len() as int);
            flags.contains("--with-branch"@) || flags.contains("--force-branch"@)
        }) ==> allow_branch_delete,
{
    reveal_strlit("--force");
    reveal_strlit("--with-branch");
    reveal_strlit("--force-branch");
    let a = remove_args(name, force, with_branch, force_branch);
    let flags = a.subrange(2, a.len() as int);
    if !with_branch && !force_branch {
        if force {
            assert(flags =~= seq!["--force"@]);
        } else {
            assert(flags =~= Seq::<Seq<char>>::empty());
        }
        assert("--force"@.len() != "--with-branch"@.len());
        assert("--force"@.len() != "--force-branch"@.len());
    }
}

} // verus!
