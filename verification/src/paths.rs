//! Texts of paths: what is cut off a path that a user names, what makes it
//! climb out of its directory, and how it is put behind a base directory.

use vstd::prelude::*;
use vstd::string::StrSliceExecFns;

verus! {

/// Whether a character is white space (Unicode's `White_Space`).
pub open spec fn is_space(c: char) -> bool {
    ||| ('\u{9}' <= c && c <= '\u{d}')
    ||| c == ' '
    ||| c == '\u{85}'
    ||| c == '\u{a0}'
    ||| c == '\u{1680}'
    ||| ('\u{2000}' <= c && c <= '\u{200a}')
    ||| c == '\u{2028}'
    ||| c == '\u{2029}'
    ||| c == '\u{202f}'
    ||| c == '\u{205f}'
    ||| c == '\u{3000}'
}

/// The first place from `i` on that holds no white space.
pub open spec fn space_end(s: Seq<char>, i: int) -> int
    decreases s.len() - i,
{
    if 0 <= i < s.len() && is_space(s[i]) {
        space_end(s, i + 1)
    } else {
        i
    }
}

/// The place behind the last character before `j`, and not before `lo`,
/// that is no white space.
pub open spec fn space_start(s: Seq<char>, lo: int, j: int) -> int
    decreases j,
{
    if 0 <= lo < j <= s.len() && is_space(s[j - 1]) {
        space_start(s, lo, j - 1)
    } else {
        j
    }
}

/// A text without the white space at its two ends.
pub open spec fn trimmed(s: Seq<char>) -> Seq<char> {
    let from = space_end(s, 0);
    s.subrange(from, space_start(s, from, s.len() as int))
}

/// The first place from `i` on that does not hold `c`.
pub open spec fn run_end(s: Seq<char>, c: char, i: int) -> int
    decreases s.len() - i,
{
    if 0 <= i < s.len() && s[i] == c {
        run_end(s, c, i + 1)
    } else {
        i
    }
}

/// A text without the run of `c` that it starts with.
pub open spec fn without_leading(s: Seq<char>, c: char) -> Seq<char> {
    s.subrange(run_end(s, c, 0), s.len() as int)
}

/// Whether two dots stand side by side in the text.
pub open spec fn has_parent_step(s: Seq<char>) -> bool {
    exists|i: int| 0 <= i && i + 1 < s.len() && #[trigger] s[i] == '.' && s[i + 1] == '.'
}

/// The part of a user's path that is looked for below the base directory:
/// the path without the white space around it and without leading slashes.
pub open spec fn relative_part(path: Seq<char>) -> Seq<char> {
    without_leading(trimmed(path), '/')
}

/// A relative path behind a base directory, with one slash between them
/// unless the base is empty or ends in one.
pub open spec fn joined(base: Seq<char>, relative: Seq<char>) -> Seq<char> {
    if base.len() > 0 && base.last() != '/' {
        base + seq!['/'] + relative
    } else {
        base + relative
    }
}

/// Tests whether a character is white space.
pub fn is_space_char(c: char) -> (r: bool)
    ensures
        r == is_space(c),
{
    ('\u{9}' <= c && c <= '\u{d}') || c == ' ' || c == '\u{85}' || c == '\u{a0}' || c == '\u{1680}'
        || ('\u{2000}' <= c && c <= '\u{200a}') || c == '\u{2028}' || c == '\u{2029}' || c
        == '\u{202f}' || c == '\u{205f}' || c == '\u{3000}'
}

/// The text without the white space at its two ends.
pub fn trim_text(s: &str) -> (r: &str)
    ensures
        r@ == trimmed(s@),
{
    let n: usize = s.unicode_len();
    let mut from: usize = 0;
    while from < n && is_space_char(s.get_char(from))
        invariant
            from <= n,
            n == s@.len(),
            space_end(s@, 0) == space_end(s@, from as int),
        decreases n - from,
    {
        from = from + 1;
    }
    let mut to: usize = n;
    while to > from && is_space_char(s.get_char(to - 1))
        invariant
            from <= to <= n,
            n == s@.len(),
            space_start(s@, from as int, n as int) == space_start(s@, from as int, to as int),
        decreases to,
    {
        to = to - 1;
    }
    s.substring_char(from, to)
}

/// The text without the run of `c` that it starts with.
pub fn trim_leading(s: &str, c: char) -> (r: &str)
    ensures
        r@ == without_leading(s@, c),
{
    let n: usize = s.unicode_len();
    let mut from: usize = 0;
    while from < n && s.get_char(from) == c
        invariant
            from <= n,
            n == s@.len(),
            run_end(s@, c, 0) == run_end(s@, c, from as int),
        decreases n - from,
    {
        from = from + 1;
    }
    s.substring_char(from, n)
}

/// Tests whether two dots stand side by side in the text.
pub fn holds_parent_step(s: &str) -> (r: bool)
    ensures
        r == has_parent_step(s@),
{
    let n: usize = s.unicode_len();
    let mut i: usize = 0;
    let mut after_dot = false;
    while i < n
        invariant
            i <= n,
            n == s@.len(),
            after_dot == (i > 0 && s@[i - 1] == '.'),
            forall|k: int| 0 <= k && k + 1 < i ==> !(#[trigger] s@[k] == '.' && s@[k + 1] == '.'),
        decreases n - i,
    {
        let dot = s.get_char(i) == '.';
        if dot && after_dot {
            assert(s@[i - 1] == '.' && s@[i as int] == '.');
            return true;
        }
        after_dot = dot;
        i = i + 1;
    }
    false
}

proof fn lemma_space_end(s: Seq<char>, i: int)
    requires
        0 <= i <= s.len(),
    ensures
        i <= space_end(s, i) <= s.len(),
        forall|k: int| i <= k < space_end(s, i) ==> is_space(#[trigger] s[k]),
    decreases s.len() - i,
{
    if i < s.len() && is_space(s[i]) {
        lemma_space_end(s, i + 1);
    }
}

proof fn lemma_space_start(s: Seq<char>, lo: int, j: int)
    requires
        0 <= lo <= j <= s.len(),
    ensures
        lo <= space_start(s, lo, j) <= j,
        forall|k: int| space_start(s, lo, j) <= k < j ==> is_space(#[trigger] s[k]),
    decreases j,
{
    if lo < j && is_space(s[j - 1]) {
        lemma_space_start(s, lo, j - 1);
    }
}

proof fn lemma_run_end(s: Seq<char>, c: char, i: int)
    requires
        0 <= i <= s.len(),
    ensures
        i <= run_end(s, c, i) <= s.len(),
        forall|k: int| i <= k < run_end(s, c, i) ==> #[trigger] s[k] == c,
    decreases s.len() - i,
{
    if i < s.len() && s[i] == c {
        lemma_run_end(s, c, i + 1);
    }
}

/// Cutting a path down to its relative part neither removes nor brings in
/// two dots side by side: no white space and no slash is a dot.
pub proof fn relative_part_keeps_parent_steps(path: Seq<char>)
    ensures
        has_parent_step(relative_part(path)) <==> has_parent_step(path),
{
    let from = space_end(path, 0);
    lemma_space_end(path, 0);
    let to = space_start(path, from, path.len() as int);
    lemma_space_start(path, from, path.len() as int);
    let t = trimmed(path);
    let cut = run_end(t, '/', 0);
    lemma_run_end(t, '/', 0);
    let rel = relative_part(path);
    assert(rel.len() == t.len() - cut);
    if has_parent_step(path) {
        let i = choose|i: int|
            0 <= i && i + 1 < path.len() && #[trigger] path[i] == '.' && path[i + 1] == '.';
        assert(!is_space('.'));
        assert(from <= i) by {
            if i < from {
                assert(is_space(path[i]));
            }
        }
        assert(i + 1 < to) by {
            if i + 1 >= to {
                assert(is_space(path[i + 1]));
            }
        }
        assert(t[i - from] == '.' && t[i + 1 - from] == '.');
        assert(cut <= i - from) by {
            if i - from < cut {
                assert(t[i - from] == '/');
            }
        }
        let k = i - from - cut;
        assert(rel[k] == '.' && rel[k + 1] == '.');
    }
    if has_parent_step(rel) {
        let k = choose|k: int|
            0 <= k && k + 1 < rel.len() && #[trigger] rel[k] == '.' && rel[k + 1] == '.';
        let i = k + cut + from;
        assert(rel[k] == path[i] && rel[k + 1] == path[i + 1]);
        assert(path[i] == '.' && path[i + 1] == '.');
    }
}

} // verus!
