# wtp-mcp-rs

An MCP server for [wtp](https://github.com/satococoa/wtp) (Git Worktree Plus):
it lets AI assistants list, create and remove Git worktrees, resolve their
paths and read shell integration scripts through the `wtp` CLI.

## Layout

- `src/` — the library, verified with Verus. It holds the parser of
  `wtp list` output, the security policy (hooks and branch deletion are off by
  default), the arguments of every `wtp` command a tool runs and the rule that
  turns each command's output into the tool's result, the resource views
  (resolved paths, overview, grouping by branch prefix) and the routing of
  resource URIs. Each public function states its result in its contract; the
  laws that relate several functions are public proof functions.
- `app/` — the server binary: command-line options, reading the TOML
  configuration and `.wtp.yml`, running `wtp` as a child process, and the MCP
  protocol over stdio. It hands plain values to the library and sends back
  what the library returns.
- `tests/` — tests of the library on concrete inputs.

## Safety defaults

Hooks from `.wtp.yml` and branch deletion on `remove-worktree` are refused
unless the configuration enables them:

```toml
[security]
allow_hooks = true
allow_branch_delete = true
```
