//! Parse structured data from `wtp` CLI output.
use crate::errors::Result;
use crate::text::{
    lemma_trim_end_char,
    all_dashes_or_spaces, chars_of, contains, has_infix, has_prefix, join_space, join_with_space,
    remove_all, remove_all_chars, same_chars, split_lines, split_lines_chars, split_whitespace_chars,
    split_ws, starts_with, string_of, trim, trim_end_char, trim_end_matching, trim_start,
    trimmed, views, is_ws,
};
use crate::types::{Worktree, WorktreeView, worktree_views};
use vstd::prelude::*;

verus! {

/// The marker `wtp` prints after the main worktree in its legacy layout.
pub open spec fn main_marker() -> Seq<char> {
    "(main worktree)"@
}

/// A table header: the trimmed line starts with `PATH` and mentions `BRANCH`
/// and `HEAD`.
pub open spec fn is_header_line(line: Seq<char>) -> bool {
    let t = trim(line);
    starts_with(t, "PATH"@) && contains(t, "BRANCH"@) && contains(t, "HEAD"@)
}

/// A table header that also has a `STATUS` column.
pub open spec fn is_status_header(line: Seq<char>) -> bool {
    let t = trim(line);
    starts_with(t, "PATH"@) && contains(t, "BRANCH"@) && contains(t, "HEAD"@) && contains(
        t,
        "STATUS"@,
    )
}

/// A table rule: a non-empty trimmed line made of `-` and spaces only.
pub open spec fn is_separator_line(line: Seq<char>) -> bool {
    let t = trim(line);
    t.len() > 0 && forall|k: int| 0 <= k < t.len() ==> t[k] == '-' || t[k] == ' '
}

/// Some line of the output is a header with a `STATUS` column.
pub open spec fn has_status_column(output: Seq<char>) -> bool {
    let lines = split_lines(output);
    exists|i: int| 0 <= i < lines.len() && #[trigger] is_status_header(lines[i])
}

/// The selector of a worktree: its branch when there is one (not empty and
/// not `-`), otherwise `@` for the main alias, otherwise its path.
pub open spec fn worktree_name(path: Seq<char>, branch: Seq<char>) -> Seq<char> {
    let b = trim(branch);
    let p = trim(path);
    if b.len() > 0 && b != "-"@ {
        b
    } else if starts_with(p, "@"@) {
        "@"@
    } else {
        p
    }
}

/// The worktree that one line of `wtp list` output describes, if any.
///
/// Blank lines, table headers and table rules describe none.  Otherwise the
/// `(main worktree)` marker is removed and the line is split on whitespace;
/// lines with fewer than three words describe none.  The last word is the
/// HEAD commit; the branch is the third-to-last word when the output has a
/// STATUS column and the line has at least four words, the second-to-last
/// otherwise; the words before the branch, joined by single spaces and
/// without trailing `*`, are the path.
pub open spec fn parse_line(raw: Seq<char>, status_column: bool) -> Option<WorktreeView> {
    let line = trim(raw);
    if line.len() == 0 || is_header_line(line) || is_separator_line(line) {
        None
    } else {
        let tokens = split_ws(trim(remove_all(line, main_marker())));
        if tokens.len() < 3 {
            None
        } else {
            let n = tokens.len();
            let branch_idx = if status_column && n >= 4 {
                n - 3
            } else {
                n - 2
            };
            let head = tokens[n - 1];
            let branch = tokens[branch_idx];
            let path = trim_end_char(join_space(tokens.subrange(0, branch_idx)), '*');
            let is_main = contains(line, main_marker()) || starts_with(line, "@ "@)
                || starts_with(path, "@"@);
            Some(
                WorktreeView {
                    name: worktree_name(path, branch),
                    path,
                    branch,
                    head,
                    is_main,
                },
            )
        }
    }
}

/// The worktrees that the lines describe, in order.
pub open spec fn parse_lines(lines: Seq<Seq<char>>, status_column: bool) -> Seq<WorktreeView>
    decreases lines.len(),
{
    if lines.len() == 0 {
        seq![]
    } else {
        let prev = parse_lines(lines.drop_last(), status_column);
        match parse_line(lines.last(), status_column) {
            Some(w) => prev.push(w),
            None => prev,
        }
    }
}

/// The worktrees that `wtp list` output describes.
///
/// The output is cut at newlines; since every line is trimmed before use, a
/// carriage return before the newline and the empty piece after a final
/// newline make no difference, so this agrees with splitting by `str::lines`.
pub open spec fn parse_list_spec(output: Seq<char>) -> Seq<WorktreeView> {
    parse_lines(split_lines(output), has_status_column(output))
}

fn is_header(line: &[char]) -> (b: bool)
    ensures
        b == is_header_line(line@),
{
    let t = trimmed(line);
    has_prefix(&t, &chars_of("PATH")) && has_infix(&t, &chars_of("BRANCH")) && has_infix(
        &t,
        &chars_of("HEAD"),
    )
}

fn is_status(line: &[char]) -> (b: bool)
    ensures
        b == is_status_header(line@),
{
    let t = trimmed(line);
    has_prefix(&t, &chars_of("PATH")) && has_infix(&t, &chars_of("BRANCH")) && has_infix(
        &t,
        &chars_of("HEAD"),
    ) && has_infix(&t, &chars_of("STATUS"))
}

fn is_separator(line: &[char]) -> (b: bool)
    ensures
        b == is_separator_line(line@),
{
    let t = trimmed(line);
    t.len() > 0 && all_dashes_or_spaces(&t)
}

fn detect_status_column(lines: &[Vec<char>]) -> (b: bool)
    ensures
        b == exists|i: int| 0 <= i < lines@.len() && #[trigger] is_status_header(views(lines@)[i]),
{
    let mut i: usize = 0;
    while i < lines.len()
        invariant
            i <= lines@.len(),
            forall|t: int| 0 <= t < i ==> !#[trigger] is_status_header(views(lines@)[t]),
        decreases lines@.len() - i,
    {
        if is_status(lines[i].as_slice()) {
            assert(is_status_header(views(lines@)[i as int]));
            return true;
        }
        i += 1;
    }
    false
}

fn select_worktree_name(path: &[char], branch: &[char]) -> (name: String)
    ensures
        name@ == worktree_name(path@, branch@),
{
    let b = trimmed(branch);
    if b.len() > 0 && !same_chars(&b, &chars_of("-")) {
        return string_of(&b);
    }
    let p = trimmed(path);
    let at = chars_of("@");
    if has_prefix(&p, &at) {
        return string_of(&at);
    }
    string_of(&p)
}

fn parse_line_exec(raw: &[char], status_column: bool) -> (r: Option<Worktree>)
    ensures
        match r {
            Some(w) => parse_line(raw@, status_column) == Some(w@),
            None => parse_line(raw@, status_column) is None,
        },
{
    let line = trimmed(raw);
    if line.len() == 0 || is_header(&line) || is_separator(&line) {
        return None;
    }
    let marker = chars_of("(main worktree)");
    proof {
        reveal_strlit("(main worktree)");
    }
    let removed = remove_all_chars(&line, &marker);
    let clean = trimmed(&removed);
    let tokens = split_whitespace_chars(&clean);
    if tokens.len() < 3 {
        return None;
    }
    let n = tokens.len();
    let branch_idx = if status_column && n >= 4 {
        n - 3
    } else {
        n - 2
    };
    let head = string_of(tokens[n - 1].as_slice());
    let branch = string_of(tokens[branch_idx].as_slice());
    let joined = join_with_space(tokens.as_slice(), branch_idx);
    assert(views(tokens@.subrange(0, branch_idx as int)) =~= views(tokens@).subrange(
        0,
        branch_idx as int,
    ));
    let path_chars = trim_end_matching(&joined, '*');
    let is_main = has_infix(&line, &marker) || has_prefix(&line, &chars_of("@ ")) || has_prefix(
        &path_chars,
        &chars_of("@"),
    );
    let name = select_worktree_name(&path_chars, tokens[branch_idx].as_slice());
    let path = string_of(&path_chars);
    Some(Worktree { name, path, branch, head, is_main })
}

/// Parse `wtp list` output into a vector of Worktree structs.
///
/// Supports legacy whitespace layouts (`<path> <branch> <head>`) and the
/// modern table layout with a STATUS column.  The main worktree is the one
/// named `@` or marked `(main worktree)`.  Parsing never fails: lines that
/// describe no worktree are skipped.
pub fn parse_list(output: &str) -> (r: Result<Vec<Worktree>>)
    ensures
        r matches Ok(ws) && worktree_views(ws@) == parse_list_spec(output@),
{
    let chars = chars_of(output);
    let lines = split_lines_chars(&chars);
    let status_column = detect_status_column(&lines);
    let mut worktrees: Vec<Worktree> = Vec::new();
    let mut i: usize = 0;
    while i < lines.len()
        invariant
            i <= lines@.len(),
            views(lines@) == split_lines(output@),
            worktree_views(worktrees@) == parse_lines(
                views(lines@).subrange(0, i as int),
                status_column,
            ),
        decreases lines@.len() - i,
    {
        let ghost sub = views(lines@).subrange(0, i + 1);
        assert(sub.drop_last() =~= views(lines@).subrange(0, i as int));
        assert(sub.last() == lines@[i as int]@);
        let ghost before = worktrees@;
        match parse_line_exec(lines[i].as_slice(), status_column) {
            Some(w) => {
                worktrees.push(w);
                assert(worktree_views(worktrees@) =~= worktree_views(before).push(w@));
            },
            None => {},
        }
        i += 1;
    }
    assert(views(lines@).subrange(0, lines@.len() as int) =~= views(lines@));
    Ok(worktrees)
}

/// `w` is a word: non-empty and free of whitespace.
pub open spec fn is_word(w: Seq<char>) -> bool {
    w.len() > 0 && forall|k: int| 0 <= k < w.len() ==> !is_ws(#[trigger] w[k])
}

proof fn lemma_split_ws_words(s: Seq<char>)
    ensures
        forall|i: int| 0 <= i < split_ws(s).len() ==> is_word(#[trigger] split_ws(s)[i]),
        s.len() > 0 && !is_ws(s.last()) ==> split_ws(s).len() > 0,
    decreases s.len(),
{
    if s.len() > 0 {
        let prev = split_ws(s.drop_last());
        lemma_split_ws_words(s.drop_last());
        let c = s.last();
        if !is_ws(c) && s.len() > 1 && !is_ws(s[s.len() - 2]) {
            assert(s.drop_last().last() == s[s.len() - 2]);
            let last = prev.last().push(c);
            assert(is_word(prev[prev.len() - 1]));
            assert forall|k: int| 0 <= k < last.len() implies !is_ws(#[trigger] last[k]) by {
                if k < last.len() - 1 {
                    assert(last[k] == prev[prev.len() - 1][k]);
                }
            }
        } else if !is_ws(c) {
            assert(is_word(seq![c]));
        }
    }
}

proof fn lemma_trim_word(w: Seq<char>)
    requires
        is_word(w),
    ensures
        trim(w) == w,
{
    assert(!is_ws(w[0]));
    assert(trim_start(w) == w);
    assert(!is_ws(w[w.len() - 1]));
}

/// Every worktree parsed from a line has a HEAD and a branch that are single
/// words, and is selected by its branch unless the branch is `-`.
pub proof fn lemma_parse_line_fields(raw: Seq<char>, status_column: bool)
    ensures
        parse_line(raw, status_column) matches Some(w) ==> {
            &&& is_word(w.head)
            &&& is_word(w.branch)
            &&& w.branch != "-"@ ==> w.name == w.branch
        },
{
    let line = trim(raw);
    let tokens = split_ws(trim(remove_all(line, main_marker())));
    lemma_split_ws_words(trim(remove_all(line, main_marker())));
    if let Some(w) = parse_line(raw, status_column) {
        let n = tokens.len();
        assert(is_word(tokens[n - 1]));
        let branch_idx = if status_column && n >= 4 {
            n - 3
        } else {
            n - 2
        };
        assert(is_word(tokens[branch_idx]));
        lemma_trim_word(w.branch);
    }
}

/// Parsing yields at most one worktree per line.
pub proof fn lemma_parse_lines_len(lines: Seq<Seq<char>>, status_column: bool)
    ensures
        parse_lines(lines, status_column).len() <= lines.len(),
    decreases lines.len(),
{
    if lines.len() > 0 {
        lemma_parse_lines_len(lines.drop_last(), status_column);
    }
}

/// Every parsed worktree comes from one line of the output.
pub proof fn lemma_parse_lines_from_lines(lines: Seq<Seq<char>>, status_column: bool)
    ensures
        forall|i: int|
            0 <= i < parse_lines(lines, status_column).len() ==> exists|j: int|
                0 <= j < lines.len() && parse_line(lines[j], status_column) == Some(
                    #[trigger] parse_lines(lines, status_column)[i],
                ),
    decreases lines.len(),
{
    if lines.len() > 0 {
        let prev = parse_lines(lines.drop_last(), status_column);
        lemma_parse_lines_from_lines(lines.drop_last(), status_column);
        assert forall|i: int|
            0 <= i < parse_lines(lines, status_column).len() implies exists|j: int|
                0 <= j < lines.len() && parse_line(lines[j], status_column) == Some(
                    #[trigger] parse_lines(lines, status_column)[i],
                ) by {
            if i < prev.len() {
                assert(parse_lines(lines, status_column)[i] == prev[i]);
                let j = choose|j: int|
                    0 <= j < lines.drop_last().len() && parse_line(
                        lines.drop_last()[j],
                        status_column,
                    ) == Some(#[trigger] prev[i]);
                assert(lines[j] == lines.drop_last()[j]);
            } else {
                assert(parse_line(lines[lines.len() - 1], status_column) == Some(
                    parse_lines(lines, status_column)[i],
                ));
            }
        }
    }
}

/// Every worktree in a `wtp list` output has a HEAD and a branch that are
/// single words, and is selected by its branch unless the branch is `-`;
/// there are at most as many worktrees as lines.
pub proof fn lemma_parse_list_fields(output: Seq<char>)
    ensures
        parse_list_spec(output).len() <= split_lines(output).len(),
        forall|i: int|
            0 <= i < parse_list_spec(output).len() ==> {
                let w = #[trigger] parse_list_spec(output)[i];
                &&& is_word(w.head)
                &&& is_word(w.branch)
                &&& w.branch != "-"@ ==> w.name == w.branch
            },
{
    let lines = split_lines(output);
    let st = has_status_column(output);
    lemma_parse_lines_len(lines, st);
    lemma_parse_lines_from_lines(lines, st);
    assert forall|i: int| 0 <= i < parse_list_spec(output).len() implies {
        let w = #[trigger] parse_list_spec(output)[i];
        &&& is_word(w.head)
        &&& is_word(w.branch)
        &&& w.branch != "-"@ ==> w.name == w.branch
    } by {
        let j = choose|j: int|
            0 <= j < lines.len() && parse_line(lines[j], st) == Some(
                #[trigger] parse_lines(lines, st)[i],
            );
        lemma_parse_line_fields(lines[j], st);
    }
}

/// The words of a line that describes a worktree: the trimmed line without
/// the main-worktree marker, split on whitespace.
pub open spec fn line_words(raw: Seq<char>) -> Seq<Seq<char>> {
    split_ws(trim(remove_all(trim(raw), main_marker())))
}

/// The path of a parsed worktree never ends in `*`: the words before the
/// branch, joined by single spaces, are the path followed by nothing but
/// `*` markers (which `wtp` prints after the current worktree).  The HEAD is
/// the last word, and the branch is the second-to-last word, or the
/// third-to-last when the output has a STATUS column and the line has at
/// least four words.
pub proof fn lemma_parse_line_path(raw: Seq<char>, status_column: bool)
    ensures
        parse_line(raw, status_column) matches Some(w) ==> {
            let words = line_words(raw);
            &&& w.path.len() == 0 || w.path.last() != '*'
            &&& words.len() >= 3
            &&& w.head == words[words.len() - 1]
            &&& exists|b: int|
                {
                    &&& (b == words.len() - 2 || (status_column && words.len() >= 4 && b
                        == words.len() - 3))
                    &&& w.branch == words[b]
                    &&& ({
                        let joined = join_space(words.subrange(0, b));
                        &&& w.path.len() <= joined.len()
                        &&& joined.subrange(0, w.path.len() as int) == w.path
                        &&& forall|k: int| w.path.len() <= k < joined.len() ==> joined[k] == '*'
                    })
                }
        },
{
    if let Some(w) = parse_line(raw, status_column) {
        let words = line_words(raw);
        let n = words.len();
        let b = if status_column && n >= 4 {
            n - 3
        } else {
            n - 2
        };
        let joined = join_space(words.subrange(0, b));
        lemma_trim_end_char(joined, '*');
        assert(w.path == trim_end_char(joined, '*'));
    }
}

/// Every worktree of a `wtp list` output has a path that does not end in `*`.
pub proof fn lemma_parse_list_paths(output: Seq<char>)
    ensures
        forall|i: int|
            0 <= i < parse_list_spec(output).len() ==> {
                let p = (#[trigger] parse_list_spec(output)[i]).path;
                p.len() == 0 || p.last() != '*'
            },
{
    let lines = split_lines(output);
    let st = has_status_column(output);
    lemma_parse_lines_from_lines(lines, st);
    assert forall|i: int| 0 <= i < parse_list_spec(output).len() implies {
        let p = (#[trigger] parse_list_spec(output)[i]).path;
        p.len() == 0 || p.last() != '*'
    } by {
        let j = choose|j: int|
            0 <= j < lines.len() && parse_line(lines[j], st) == Some(
                #[trigger] parse_lines(lines, st)[i],
            );
        lemma_parse_line_path(lines[j], st);
    }
}

} // verus!
