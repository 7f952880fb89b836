//! Tool implementations and shared input/output types.

/// Utility tool helpers (config and shell integration).
pub mod utility;

pub use utility::{
    GetWorktreePathInput, InitConfigInput, InitConfigOutput, ShellHookInput, ShellInitInput,
    ShellScriptOutput, WorktreePathOutput,
};
pub use utility::{
    get_worktree_path_args, init_config_args, init_config_from_output, shell_hook_args,
    shell_init_args, shell_script_from_output, validate_shell, worktree_path_from_output,
};

/// Worktree lifecycle tool helpers.
pub mod worktree;

pub use worktree::{
    AddWorktreeInput, AddWorktreeOutput, AddWorktreeRun, AddWorktreeStage, AddWorktreeStep,
    ListWorktreesInput, ListWorktreesOutput, MergeWorktreeInput, MergeWorktreeOutput,
    RemoveWorktreeInput, RemoveWorktreeOutput,
    RemoveWorktreePlan,
};
pub use worktree::{
    add_worktree_resume, add_worktree_start, list_worktrees_from_output, merge_worktree_from_output,
    remove_worktree_from_output, remove_worktree_plan, worktree_not_found_message,
};
