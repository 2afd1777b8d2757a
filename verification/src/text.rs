//! Verified text helpers shared by the scanner and the generators.

use vstd::prelude::*;
use vstd::string::StrSliceExecFns;

verus! {

/// Blank characters tolerated inside markers and separating words.
pub open spec fn is_ws(c: char) -> bool {
    c == ' ' || c == '\t' || c == '\r' || c == '\n'
}

/// The first position at or after `i` that does not hold a blank
/// (`s.len()` if only blanks remain).
pub open spec fn skip_ws(s: Seq<char>, i: int) -> int
    decreases s.len() - i when 0 <= i <= s.len()
{
    if i < s.len() && is_ws(s[i]) {
        skip_ws(s, i + 1)
    } else {
        i
    }
}

/// `skip_ws` stays within the text.
pub proof fn lemma_skip_ws_bounds(s: Seq<char>, i: int)
    requires
        0 <= i <= s.len(),
    ensures
        i <= skip_ws(s, i) <= s.len(),
    decreases s.len() - i,
{
    if i < s.len() && is_ws(s[i]) {
        lemma_skip_ws_bounds(s, i + 1);
    }
}

/// The first position at or after `i` that holds a blank (`s.len()` if no
/// blank follows): the end of the word starting at `i`.
pub open spec fn word_end(s: Seq<char>, i: int) -> int
    decreases s.len() - i when 0 <= i <= s.len()
{
    if i < s.len() && !is_ws(s[i]) {
        word_end(s, i + 1)
    } else {
        i
    }
}

/// `word_end` stays within the text.
pub proof fn lemma_word_end_bounds(s: Seq<char>, i: int)
    requires
        0 <= i <= s.len(),
    ensures
        i <= word_end(s, i) <= s.len(),
    decreases s.len() - i,
{
    if i < s.len() && !is_ws(s[i]) {
        lemma_word_end_bounds(s, i + 1);
    }
}

/// The first non-blank position at or after `i`.
pub fn ws_end(line: &str, i: usize) -> (j: usize)
    requires
        i <= line@.len(),
    ensures
        j == skip_ws(line@, i as int),
        i <= j <= line@.len(),
{
    let n = line.unicode_len();
    let mut j = i;
    loop
        invariant
            i <= j <= n,
            n == line@.len(),
            skip_ws(line@, i as int) == skip_ws(line@, j as int),
        decreases n - j,
    {
        if j < n {
            let c = line.get_char(j);
            if c == ' ' || c == '\t' || c == '\r' || c == '\n' {
                j = j + 1;
            } else {
                return j;
            }
        } else {
            return j;
        }
    }
}

/// The end of the word starting at `i`.
pub fn word_stop(line: &str, i: usize) -> (j: usize)
    requires
        i <= line@.len(),
    ensures
        j == word_end(line@, i as int),
        i <= j <= line@.len(),
{
    let n = line.unicode_len();
    let mut j = i;
    loop
        invariant
            i <= j <= n,
            n == line@.len(),
            word_end(line@, i as int) == word_end(line@, j as int),
        decreases n - j,
    {
        if j < n {
            let c = line.get_char(j);
            if c == ' ' || c == '\t' || c == '\r' || c == '\n' {
                return j;
            } else {
                j = j + 1;
            }
        } else {
            return j;
        }
    }
}

/// The end of the line starting at `i`: the first line break at or after
/// `i`, or `s.len()` if none follows.
pub open spec fn line_end(s: Seq<char>, i: int) -> int
    decreases s.len() - i when 0 <= i <= s.len()
{
    if i < s.len() && s[i] != '\n' {
        line_end(s, i + 1)
    } else {
        i
    }
}

/// `line_end` stays within the text.
pub proof fn lemma_line_end_bounds(s: Seq<char>, i: int)
    requires
        0 <= i <= s.len(),
    ensures
        i <= line_end(s, i) <= s.len(),
    decreases s.len() - i,
{
    if i < s.len() && s[i] != '\n' {
        lemma_line_end_bounds(s, i + 1);
    }
}

/// The end of the line starting at `i`.
pub fn line_stop(line: &str, i: usize) -> (j: usize)
    requires
        i <= line@.len(),
    ensures
        j == line_end(line@, i as int),
        i <= j <= line@.len(),
{
    let n = line.unicode_len();
    let mut j = i;
    loop
        invariant
            i <= j <= n,
            n == line@.len(),
            line_end(line@, i as int) == line_end(line@, j as int),
        decreases n - j,
    {
        if j < n {
            if line.get_char(j) != '\n' {
                j = j + 1;
            } else {
                return j;
            }
        } else {
            return j;
        }
    }
}

/// The lines of a text, split at line breaks, starting at `i`: each break
/// ends a line, and a final fragment without a break is a line of its own.
pub open spec fn lines_from(s: Seq<char>, i: int) -> Seq<Seq<char>>
    decreases s.len() - i when 0 <= i <= s.len() via lines_from_dec
{
    if i >= s.len() {
        Seq::empty()
    } else {
        let e = line_end(s, i);
        seq![s.subrange(i, e)] + lines_from(
            s,
            if e < s.len() {
                e + 1
            } else {
                e
            },
        )
    }
}

#[via_fn]
proof fn lines_from_dec(s: Seq<char>, i: int) {
    if 0 <= i <= s.len() && i < s.len() {
        lemma_line_end_bounds(s, i);
    }
}

/// The lines of a whole text.
pub open spec fn lines_of(s: Seq<char>) -> Seq<Seq<char>> {
    lines_from(s, 0)
}

/// Splits a text into its lines: each line break ends a line, and a final
/// fragment without a break is a line of its own. The breaks themselves are
/// not part of any line.
pub fn split_lines(text: &str) -> (r: Vec<String>)
    ensures
        r.deep_view() == lines_of(text@),
{
    let n = text.unicode_len();
    let mut out: Vec<String> = Vec::new();
    let mut i: usize = 0;
    while i < n
        invariant
            0 <= i <= n,
            n == text@.len(),
            lines_of(text@) == out.deep_view() + lines_from(text@, i as int),
        decreases n - i,
    {
        let ghost pre = out.deep_view();
        let ghost prev = out@;
        let e = line_stop(text, i);
        let line = text.substring_char(i, e).to_owned();
        let ghost lv = line@;
        out.push(line);
        proof {
            assert forall|j: int| 0 <= j < out.deep_view().len() implies #[trigger] out.deep_view()[j]
                == pre.push(lv)[j] by {
                assert(out.deep_view()[j] == out@[j]@);
                if j < prev.len() {
                    assert(out@[j] == prev[j]);
                    assert(pre[j] == prev[j]@);
                } else {
                    assert(out@[j]@ == lv);
                }
            }
            assert(out.deep_view() =~= pre.push(lv));
            assert(lines_from(text@, i as int) == seq![lv] + lines_from(
                text@,
                if e < n {
                    e as int + 1
                } else {
                    e as int
                },
            ));
            assert(pre.push(lv) =~= pre + seq![lv]);
            assert((pre + seq![lv]) + lines_from(
                text@,
                if e < n {
                    e as int + 1
                } else {
                    e as int
                },
            ) =~= pre + (seq![lv] + lines_from(
                text@,
                if e < n {
                    e as int + 1
                } else {
                    e as int
                },
            )));
        }
        if e < n {
            i = e + 1;
        } else {
            i = n;
            proof {
                assert(lines_from(text@, e as int) =~= Seq::<Seq<char>>::empty());
                assert(lines_from(text@, n as int) =~= Seq::<Seq<char>>::empty());
            }
        }
    }
    proof {
        assert(lines_from(text@, n as int) =~= Seq::<Seq<char>>::empty());
        assert(out.deep_view() + Seq::<Seq<char>>::empty() =~= out.deep_view());
    }
    out
}

/// Character-for-character equality of two text slices.
pub fn str_eq(a: &str, b: &str) -> (r: bool)
    ensures
        r == (a@ == b@),
{
    let na = a.unicode_len();
    let nb = b.unicode_len();
    if na != nb {
        return false;
    }
    let mut i: usize = 0;
    while i < na
        invariant
            0 <= i <= na,
            na == a@.len(),
            na == b@.len(),
            forall|j: int| 0 <= j < i ==> a@[j] == b@[j],
        decreases na - i,
    {
        if a.get_char(i) != b.get_char(i) {
            return false;
        }
        i = i + 1;
    }
    proof {
        assert(a@ =~= b@);
    }
    true
}

} // verus!
