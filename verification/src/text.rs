//! Character-level text operations used by the `wtp` output parsers.
//!
//! Text is handled as sequences of Unicode scalar values (`Seq<char>` in
//! specifications, `Vec<char>` / `&[char]` in executable code).  Each
//! operation mirrors the `str` method of the same purpose and is specified
//! by a small recursive definition.
use vstd::prelude::*;

verus! {

/// Unicode `White_Space` characters: the set accepted by `char::is_whitespace`
/// (and therefore by `str::trim` and `str::split_whitespace`).
pub open spec fn is_ws(c: char) -> bool {
    let u = c as u32;
    ||| (0x09 <= u && u <= 0x0D)
    ||| u == 0x20
    ||| u == 0x85
    ||| u == 0xA0
    ||| u == 0x1680
    ||| (0x2000 <= u && u <= 0x200A)
    ||| u == 0x2028
    ||| u == 0x2029
    ||| u == 0x202F
    ||| u == 0x205F
    ||| u == 0x3000
}

/// The text of an optional string.
pub open spec fn opt_text(s: Option<String>) -> Option<Seq<char>> {
    match s {
        Some(t) => Some(t@),
        None => None,
    }
}

/// Drops leading whitespace (`str::trim_start`).
pub open spec fn trim_start(s: Seq<char>) -> Seq<char>
    decreases s.len(),
{
    if s.len() > 0 && is_ws(s[0]) {
        trim_start(s.drop_first())
    } else {
        s
    }
}

/// Drops trailing whitespace (`str::trim_end`).
pub open spec fn trim_end(s: Seq<char>) -> Seq<char>
    decreases s.len(),
{
    if s.len() > 0 && is_ws(s.last()) {
        trim_end(s.drop_last())
    } else {
        s
    }
}

/// Drops leading and trailing whitespace (`str::trim`).
pub open spec fn trim(s: Seq<char>) -> Seq<char> {
    trim_end(trim_start(s))
}

/// Drops every trailing occurrence of `c` (`str::trim_end_matches` with a char).
pub open spec fn trim_end_char(s: Seq<char>, c: char) -> Seq<char>
    decreases s.len(),
{
    if s.len() > 0 && s.last() == c {
        trim_end_char(s.drop_last(), c)
    } else {
        s
    }
}

/// `p` is a prefix of `s` (`str::starts_with`).
pub open spec fn starts_with(s: Seq<char>, p: Seq<char>) -> bool {
    p.len() <= s.len() && s.subrange(0, p.len() as int) == p
}

/// `p` occurs in `s` at position `k`.
pub open spec fn occurs_at(s: Seq<char>, p: Seq<char>, k: int) -> bool {
    0 <= k && k + p.len() <= s.len() && s.subrange(k, k + p.len()) == p
}

/// `p` occurs somewhere in `s` (`str::contains`).
pub open spec fn contains(s: Seq<char>, p: Seq<char>) -> bool {
    exists|k: int| #[trigger] occurs_at(s, p, k)
}

/// Removes every occurrence of the non-empty pattern `p`, scanning from the
/// left without overlaps (`str::replace(p, "")`).
pub open spec fn remove_all(s: Seq<char>, p: Seq<char>) -> Seq<char>
    recommends
        p.len() > 0,
    decreases s.len(),
{
    if s.len() == 0 {
        s
    } else if p.len() > 0 && starts_with(s, p) {
        remove_all(s.subrange(p.len() as int, s.len() as int), p)
    } else {
        seq![s[0]] + remove_all(s.drop_first(), p)
    }
}

/// The maximal runs of non-whitespace characters of `s`, in order
/// (`str::split_whitespace`).  Defined one character at a time: a whitespace
/// character ends the current word, any other character extends the word
/// that its predecessor belongs to, or starts a new one.
pub open spec fn split_ws(s: Seq<char>) -> Seq<Seq<char>>
    decreases s.len(),
{
    if s.len() == 0 {
        seq![]
    } else {
        let prev = split_ws(s.drop_last());
        let c = s.last();
        if is_ws(c) {
            prev
        } else if s.len() > 1 && !is_ws(s[s.len() - 2]) {
            prev.update(prev.len() - 1, prev.last().push(c))
        } else {
            prev.push(seq![c])
        }
    }
}

/// Joins the words with one space between neighbours (`[&str]::join(" ")`).
pub open spec fn join_space(ws: Seq<Seq<char>>) -> Seq<char>
    decreases ws.len(),
{
    if ws.len() == 0 {
        seq![]
    } else if ws.len() == 1 {
        ws[0]
    } else {
        join_space(ws.drop_last()) + seq![' '] + ws.last()
    }
}

/// The pieces of `s` between `'\n'` characters (`str::split('\n')`); there is
/// always at least one piece.
pub open spec fn split_lines(s: Seq<char>) -> Seq<Seq<char>>
    decreases s.len(),
{
    if s.len() == 0 {
        seq![seq![]]
    } else {
        let prev = split_lines(s.drop_last());
        if s.last() == '\n' {
            prev.push(seq![])
        } else {
            prev.update(prev.len() - 1, prev.last().push(s.last()))
        }
    }
}

/// The part of `s` before the first `c`, or all of `s` when there is none
/// (the first item of `str::split(c)`).
pub open spec fn take_until(s: Seq<char>, c: char) -> Seq<char>
    decreases s.len(),
{
    if s.len() == 0 || s[0] == c {
        seq![]
    } else {
        seq![s[0]] + take_until(s.drop_first(), c)
    }
}

/// `trim_end_char(s, c)` is the longest prefix of `s` that does not end in
/// `c` such that everything after it is `c`.
pub proof fn lemma_trim_end_char(s: Seq<char>, c: char)
    ensures
        ({
            let r = trim_end_char(s, c);
            &&& r.len() <= s.len()
            &&& r == s.subrange(0, r.len() as int)
            &&& r.len() == 0 || r.last() != c
            &&& forall|k: int| r.len() <= k < s.len() ==> s[k] == c
        }),
    decreases s.len(),
{
    if s.len() > 0 && s.last() == c {
        lemma_trim_end_char(s.drop_last(), c);
        let r = trim_end_char(s, c);
        assert(r == trim_end_char(s.drop_last(), c));
        assert(r =~= s.subrange(0, r.len() as int));
        assert forall|k: int| r.len() <= k < s.len() implies s[k] == c by {
            if k < s.len() - 1 {
                assert(s[k] == s.drop_last()[k]);
            }
        }
    } else {
        assert(trim_end_char(s, c) =~= s.subrange(0, s.len() as int));
    }
}

/// Executable counterpart of [`is_ws`].
pub fn is_whitespace(c: char) -> (b: bool)
    ensures
        b == is_ws(c),
{
    let u = c as u32;
    (0x09 <= u && u <= 0x0D) || u == 0x20 || u == 0x85 || u == 0xA0 || u == 0x1680 || (0x2000
        <= u && u <= 0x200A) || u == 0x2028 || u == 0x2029 || u == 0x202F || u == 0x205F || u
        == 0x3000
}

/// The characters of `s`, in order.
pub fn chars_of(s: &str) -> (v: Vec<char>)
    ensures
        v@ == s@,
{
    let mut v: Vec<char> = Vec::new();
    for c in it: s.chars()
        invariant
            v@ == it.seq().take(it.index() as int),
            it.seq() == s@,
    {
        v.push(c);
    }
    v
}

/// The `String` made of the characters `cs` (`String::from_iter`).
#[verifier::external_body]
pub(crate) fn string_of(cs: &[char]) -> (s: String)
    ensures
        s@ == cs@,
{
    cs.iter().collect()
}

/// A copy of `s[from..to]`.
pub fn copy_range(s: &[char], from: usize, to: usize) -> (r: Vec<char>)
    requires
        from <= to <= s@.len(),
    ensures
        r@ == s@.subrange(from as int, to as int),
{
    let mut r: Vec<char> = Vec::new();
    let mut k = from;
    while k < to
        invariant
            from <= k <= to <= s@.len(),
            r@ == s@.subrange(from as int, k as int),
        decreases to - k,
    {
        r.push(s[k]);
        assert(s@.subrange(from as int, k + 1) =~= s@.subrange(from as int, k as int).push(
            s@[k as int],
        ));
        k += 1;
    }
    r
}

/// Bounds `(i, j)` such that `s[i..j]` is `s` trimmed.
pub fn trim_bounds(s: &[char]) -> (b: (usize, usize))
    ensures
        b.0 <= b.1 <= s@.len(),
        s@.subrange(b.0 as int, b.1 as int) == trim(s@),
{
    let n = s.len();
    let mut i: usize = 0;
    assert(s@.subrange(0, n as int) =~= s@);
    while i < n && is_whitespace(s[i])
        invariant
            i <= n,
            n == s@.len(),
            trim_start(s@) == trim_start(s@.subrange(i as int, n as int)),
        decreases n - i,
    {
        assert(s@.subrange(i as int, n as int).drop_first() =~= s@.subrange(i + 1, n as int));
        i += 1;
    }
    if i < n {
        assert(s@.subrange(i as int, n as int)[0] == s@[i as int]);
    } else {
        assert(s@.subrange(i as int, n as int).len() == 0);
    }
    assert(trim_start(s@) == s@.subrange(i as int, n as int));
    let mut j: usize = n;
    while j > i && is_whitespace(s[j - 1])
        invariant
            i <= j <= n,
            n == s@.len(),
            trim_end(s@.subrange(i as int, n as int)) == trim_end(s@.subrange(i as int, j as int)),
        decreases j,
    {
        assert(s@.subrange(i as int, j as int).drop_last() =~= s@.subrange(i as int, j - 1));
        j -= 1;
    }
    if j > i {
        assert(s@.subrange(i as int, j as int).last() == s@[j - 1]);
    } else {
        assert(s@.subrange(i as int, j as int).len() == 0);
    }
    (i, j)
}

/// `s` trimmed (`str::trim`).
pub fn trimmed(s: &[char]) -> (r: Vec<char>)
    ensures
        r@ == trim(s@),
{
    let (i, j) = trim_bounds(s);
    copy_range(s, i, j)
}

/// The character sequences held by a vector of character vectors.
pub open spec fn views(v: Seq<Vec<char>>) -> Seq<Seq<char>> {
    v.map_values(|w: Vec<char>| w@)
}

/// `p` occurs in `s` at position `k` (executable).
pub fn matches_at(s: &[char], p: &[char], k: usize) -> (b: bool)
    requires
        k <= s@.len(),
    ensures
        b == occurs_at(s@, p@, k as int),
{
    if p.len() > s.len() - k {
        return false;
    }
    let mut t: usize = 0;
    while t < p.len()
        invariant
            t <= p@.len(),
            k + p.len() <= s.len(),
            forall|u: int| 0 <= u < t ==> s@[k + u] == p@[u],
        decreases p@.len() - t,
    {
        if s[k + t] != p[t] {
            assert(s@.subrange(k as int, k + p@.len())[t as int] == s@[k + t]);
            return false;
        }
        t += 1;
    }
    assert(s@.subrange(k as int, k + p@.len()) =~= p@);
    true
}

/// `p` is a prefix of `s` (executable).
pub fn has_prefix(s: &[char], p: &[char]) -> (b: bool)
    ensures
        b == starts_with(s@, p@),
{
    let b = matches_at(s, p, 0);
    assert(occurs_at(s@, p@, 0) == starts_with(s@, p@));
    b
}

/// `p` occurs in `s` (executable).
pub fn has_infix(s: &[char], p: &[char]) -> (b: bool)
    ensures
        b == contains(s@, p@),
{
    if p.len() > s.len() {
        assert forall|k: int| !occurs_at(s@, p@, k) by {}
        return false;
    }
    let last = s.len() - p.len();
    let mut k: usize = 0;
    loop
        invariant
            k <= last,
            last == s@.len() - p@.len(),
            forall|t: int| 0 <= t < k ==> !occurs_at(s@, p@, t),
        decreases last - k,
    {
        if matches_at(s, p, k) {
            return true;
        }
        if k == last {
            assert forall|t: int| !occurs_at(s@, p@, t) by {
                if 0 <= t < k {
                }
            }
            return false;
        }
        k += 1;
    }
}

/// `s` with every occurrence of `p` removed (executable [`remove_all`]).
pub fn remove_all_chars(s: &[char], p: &[char]) -> (r: Vec<char>)
    requires
        p@.len() > 0,
    ensures
        r@ == remove_all(s@, p@),
{
    let n = s.len();
    let mut r: Vec<char> = Vec::new();
    let mut i: usize = 0;
    assert(s@.subrange(0, n as int) =~= s@);
    while i < n
        invariant
            i <= n,
            n == s@.len(),
            p@.len() > 0,
            r@ + remove_all(s@.subrange(i as int, n as int), p@) == remove_all(s@, p@),
        decreases n - i,
    {
        let ghost rest = s@.subrange(i as int, n as int);
        if matches_at(s, p, i) {
            assert(rest.subrange(0, p@.len() as int) =~= s@.subrange(i as int, i + p@.len()));
            assert(rest.subrange(p@.len() as int, rest.len() as int) =~= s@.subrange(
                i + p@.len(),
                n as int,
            ));
            i += p.len();
        } else {
            assert(!starts_with(rest, p@)) by {
                if starts_with(rest, p@) {
                    assert(s@.subrange(i as int, i + p@.len()) =~= rest.subrange(
                        0,
                        p@.len() as int,
                    ));
                }
            }
            assert(rest.drop_first() =~= s@.subrange(i + 1, n as int));
            let ghost old_r = r@;
            r.push(s[i]);
            assert(r@ + remove_all(s@.subrange(i + 1, n as int), p@) =~= old_r + (seq![rest[0]]
                + remove_all(rest.drop_first(), p@)));
            i += 1;
        }
    }
    assert(r@ + remove_all(s@.subrange(n as int, n as int), p@) =~= r@);
    r
}

/// The whitespace-separated words of `s` (executable [`split_ws`]).
pub fn split_whitespace_chars(s: &[char]) -> (r: Vec<Vec<char>>)
    ensures
        views(r@) == split_ws(s@),
{
    let n = s.len();
    let mut done: Vec<Vec<char>> = Vec::new();
    let mut cur: Vec<char> = Vec::new();
    let mut i: usize = 0;
    while i < n
        invariant
            i <= n,
            n == s@.len(),
            cur@.len() > 0 <==> (i > 0 && !is_ws(s@[i - 1])),
            split_ws(s@.subrange(0, i as int)) == if cur@.len() > 0 {
                views(done@).push(cur@)
            } else {
                views(done@)
            },
        decreases n - i,
    {
        let c = s[i];
        let ghost pre = s@.subrange(0, i + 1);
        assert(pre.drop_last() =~= s@.subrange(0, i as int));
        assert(pre.last() == c);
        if i > 0 {
            assert(pre[pre.len() - 2] == s@[i - 1]);
        }
        if is_whitespace(c) {
            if cur.len() > 0 {
                let ghost old_done = done@;
                done.push(cur);
                assert(views(done@) =~= views(old_done).push(cur@));
                cur = Vec::new();
            }
        } else {
            if cur.len() > 0 {
                let ghost old_cur = cur@;
                cur.push(c);
                assert(views(done@).push(old_cur).update(views(done@).len() as int, old_cur.push(c))
                    =~= views(done@).push(cur@));
            } else {
                cur.push(c);
                assert(cur@ =~= seq![c]);
            }
        }
        i += 1;
    }
    assert(s@.subrange(0, n as int) =~= s@);
    if cur.len() > 0 {
        let ghost old_done = done@;
        done.push(cur);
        assert(views(done@) =~= views(old_done).push(cur@));
    }
    done
}

/// The first `count` words joined by single spaces (executable [`join_space`]).
pub fn join_with_space(ws: &[Vec<char>], count: usize) -> (r: Vec<char>)
    requires
        count <= ws@.len(),
    ensures
        r@ == join_space(views(ws@.subrange(0, count as int))),
{
    let mut r: Vec<char> = Vec::new();
    let mut i: usize = 0;
    while i < count
        invariant
            i <= count <= ws@.len(),
            r@ == join_space(views(ws@.subrange(0, i as int))),
        decreases ws@.len() - i,
    {
        let ghost sub = views(ws@.subrange(0, i + 1));
        assert(sub.drop_last() =~= views(ws@.subrange(0, i as int)));
        assert(sub.last() == ws@[i as int]@);
        if i > 0 {
            r.push(' ');
        }
        let w = &ws[i];
        let mut k: usize = 0;
        let ghost base = r@;
        while k < w.len()
            invariant
                k <= w@.len(),
                r@ == base + w@.subrange(0, k as int),
            decreases w@.len() - k,
        {
            r.push(w[k]);
            assert(base + w@.subrange(0, k + 1) =~= (base + w@.subrange(0, k as int)).push(
                w@[k as int],
            ));
            k += 1;
        }
        assert(w@.subrange(0, w@.len() as int) =~= w@);
        if i == 0 {
            assert(sub.len() == 1);
            assert(r@ =~= sub[0]);
        } else {
            assert(r@ =~= join_space(sub.drop_last()) + seq![' '] + sub.last());
        }
        i += 1;
    }
    r
}

/// `s` without its trailing run of `c` (executable [`trim_end_char`]).
pub fn trim_end_matching(s: &[char], c: char) -> (r: Vec<char>)
    ensures
        r@ == trim_end_char(s@, c),
{
    let n = s.len();
    let mut j: usize = n;
    assert(s@.subrange(0, n as int) =~= s@);
    while j > 0 && s[j - 1] == c
        invariant
            j <= n,
            n == s@.len(),
            trim_end_char(s@, c) == trim_end_char(s@.subrange(0, j as int), c),
        decreases j,
    {
        assert(s@.subrange(0, j as int).drop_last() =~= s@.subrange(0, j - 1));
        j -= 1;
    }
    if j > 0 {
        assert(s@.subrange(0, j as int).last() == s@[j - 1]);
    }
    copy_range(s, 0, j)
}

/// The pieces of `s` between newlines (executable [`split_lines`]).
pub fn split_lines_chars(s: &[char]) -> (r: Vec<Vec<char>>)
    ensures
        views(r@) == split_lines(s@),
{
    let n = s.len();
    let mut done: Vec<Vec<char>> = Vec::new();
    let mut cur: Vec<char> = Vec::new();
    let mut i: usize = 0;
    assert(split_lines(s@.subrange(0, 0)) =~= views(done@).push(cur@));
    while i < n
        invariant
            i <= n,
            n == s@.len(),
            split_lines(s@.subrange(0, i as int)) == views(done@).push(cur@),
        decreases n - i,
    {
        let c = s[i];
        let ghost pre = s@.subrange(0, i + 1);
        assert(pre.drop_last() =~= s@.subrange(0, i as int));
        assert(pre.last() == c);
        if c == '\n' {
            let ghost old_done = done@;
            let ghost old_cur = cur@;
            done.push(cur);
            cur = Vec::new();
            assert(views(done@).push(cur@) =~= views(old_done).push(old_cur).push(seq![]));
        } else {
            let ghost old_cur = cur@;
            cur.push(c);
            assert(views(done@).push(old_cur).update(views(done@).len() as int, old_cur.push(c))
                =~= views(done@).push(cur@));
        }
        i += 1;
    }
    assert(s@.subrange(0, n as int) =~= s@);
    let ghost old_done = done@;
    done.push(cur);
    assert(views(done@) =~= views(old_done).push(cur@));
    done
}

/// The part of `s` before the first `c` (executable [`take_until`]).
pub fn take_until_char(s: &[char], c: char) -> (r: Vec<char>)
    ensures
        r@ == take_until(s@, c),
{
    let n = s.len();
    let mut k: usize = 0;
    assert(s@.subrange(0, n as int) =~= s@);
    assert(s@.subrange(0, 0) + take_until(s@, c) =~= take_until(s@, c));
    while k < n && s[k] != c
        invariant
            k <= n,
            n == s@.len(),
            take_until(s@, c) == s@.subrange(0, k as int) + take_until(s@.subrange(k as int, n as int), c),
        decreases n - k,
    {
        let ghost rest = s@.subrange(k as int, n as int);
        assert(rest.drop_first() =~= s@.subrange(k + 1, n as int));
        assert(s@.subrange(0, k + 1) + take_until(rest.drop_first(), c) =~= s@.subrange(0, k as int) + (seq![rest[0]] + take_until(rest.drop_first(), c)));
        k += 1;
    }
    assert(s@.subrange(0, n as int) =~= s@);
    assert(s@.subrange(0, 0) + take_until(s@, c) =~= take_until(s@, c));
    if k < n {
        assert(s@.subrange(k as int, n as int)[0] == c);
    }
    assert(s@.subrange(0, k as int) + take_until(s@.subrange(k as int, n as int), c) =~= s@.subrange(0, k as int));
    copy_range(s, 0, k)
}

/// The two character sequences are equal (executable).
pub fn same_chars(a: &[char], b: &[char]) -> (r: bool)
    ensures
        r == (a@ == b@),
{
    if a.len() != b.len() {
        return false;
    }
    let b0 = matches_at(a, b, 0);
    assert(a@.subrange(0, b@.len() as int) =~= a@) by {
        if a@.len() == b@.len() {
        }
    }
    b0
}

/// Every character of `s` is `'-'` or `' '` (executable).
pub fn all_dashes_or_spaces(s: &[char]) -> (r: bool)
    ensures
        r == (forall|k: int| 0 <= k < s@.len() ==> s@[k] == '-' || s@[k] == ' '),
{
    let mut k: usize = 0;
    while k < s.len()
        invariant
            k <= s@.len(),
            forall|t: int| 0 <= t < k ==> s@[t] == '-' || s@[t] == ' ',
        decreases s@.len() - k,
    {
        if s[k] != '-' && s[k] != ' ' {
            return false;
        }
        k += 1;
    }
    true
}

} // verus!
