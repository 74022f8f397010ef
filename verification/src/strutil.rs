//! Verified substring and line scanning over `&str`, specified on `Seq<char>` views.

use vstd::prelude::*;
use vstd::string::StrSliceExecFns;

verus! {

/// `pat` occurs in `s` starting at index `i`.
pub open spec fn match_at(s: Seq<char>, pat: Seq<char>, i: int) -> bool {
    0 <= i && i + pat.len() <= s.len() && s.subrange(i, i + pat.len() as int) == pat
}

/// Index of the first occurrence of `pat` in `s` at or after `from`, if any.
pub open spec fn spec_find(s: Seq<char>, pat: Seq<char>, from: int) -> Option<int>
    decreases s.len() - from,
{
    if from < 0 || from + pat.len() > s.len() {
        None
    } else if pat.len() == 0 {
        Some(from)
    } else if match_at(s, pat, from) {
        Some(from)
    } else {
        spec_find(s, pat, from + 1)
    }
}

/// Index of the first occurrence of the character `c` in `s` at or after `from`, if any.
pub open spec fn spec_find_char(s: Seq<char>, c: char, from: int) -> Option<int>
    decreases s.len() - from,
{
    if from < 0 || from >= s.len() {
        None
    } else if s[from] == c {
        Some(from)
    } else {
        spec_find_char(s, c, from + 1)
    }
}

/// `s` holds `pat` somewhere.
pub open spec fn seq_contains(s: Seq<char>, pat: Seq<char>) -> bool {
    spec_find(s, pat, 0) is Some
}

/// Whether `pat` occurs in `s` at index `i`, checked character by character.
pub fn match_at_exec(s: &str, pat: &str, i: usize) -> (r: bool)
    requires
        i + pat@.len() <= s@.len(),
    ensures
        r == match_at(s@, pat@, i as int),
{
    let n = s.unicode_len();
    let m = pat.unicode_len();
    let mut j: usize = 0;
    while j < m
        invariant
            n == s@.len(),
            m == pat@.len(),
            i + m <= s@.len(),
            0 <= j <= m,
            forall|k: int| 0 <= k < j ==> s@[i + k] == pat@[k],
        decreases m - j,
    {
        if s.get_char(i + j) != pat.get_char(j) {
            proof {
                assert(s@.subrange(i as int, i + m as int)[j as int] == s@[i + j]);
            }
            return false;
        }
        j += 1;
    }
    proof {
        assert(s@.subrange(i as int, i + m as int) =~= pat@);
    }
    true
}

/// First occurrence of `pat` in `s` at or after `from`, by naive scan.
pub fn find_in(s: &str, pat: &str, from: usize) -> (r: Option<usize>)
    ensures
        match r {
            Some(i) => spec_find(s@, pat@, from as int) == Some(i as int),
            None => spec_find(s@, pat@, from as int) is None,
        },
{
    let n = s.unicode_len();
    let m = pat.unicode_len();
    if m > n || from > n - m {
        return None;
    }
    if m == 0 {
        return Some(from);
    }
    let mut i: usize = from;
    while i <= n - m
        invariant
            n == s@.len(),
            m == pat@.len(),
            1 <= m <= n,
            from <= i <= n - m + 1,
            spec_find(s@, pat@, from as int) == spec_find(s@, pat@, i as int),
        decreases n - i,
    {
        if match_at_exec(s, pat, i) {
            return Some(i);
        }
        i += 1;
    }
    None
}

/// First occurrence of the character `c` in `s` at or after `from`, by naive scan.
pub fn find_char_in(s: &str, c: char, from: usize) -> (r: Option<usize>)
    ensures
        match r {
            Some(i) => spec_find_char(s@, c, from as int) == Some(i as int),
            None => spec_find_char(s@, c, from as int) is None,
        },
{
    let n = s.unicode_len();
    let mut i: usize = from;
    while i < n
        invariant
            n == s@.len(),
            from <= i,
            spec_find_char(s@, c, from as int) == spec_find_char(s@, c, i as int),
        decreases n - i,
    {
        if s.get_char(i) == c {
            return Some(i);
        }
        i += 1;
    }
    None
}

/// What a successful find means: a match at the found index, within bounds.
pub proof fn lemma_find_match(s: Seq<char>, pat: Seq<char>, from: int)
    requires
        spec_find(s, pat, from) is Some,
    ensures
        from <= spec_find(s, pat, from)->0,
        spec_find(s, pat, from)->0 + pat.len() <= s.len(),
        pat.len() > 0 ==> match_at(s, pat, spec_find(s, pat, from)->0),
    decreases s.len() - from,
{
    if !(from < 0 || from + pat.len() > s.len()) && pat.len() != 0 && !match_at(s, pat, from) {
        lemma_find_match(s, pat, from + 1);
    }
}

/// What finding a character means: the character stands at the found index and
/// nowhere earlier; a failed find means it stands nowhere at or after `from`.
pub proof fn lemma_find_char_props(s: Seq<char>, c: char, from: int)
    requires
        0 <= from <= s.len(),
    ensures
        match spec_find_char(s, c, from) {
            Some(p) => from <= p < s.len() && s[p] == c && (forall|j: int|
                from <= j < p ==> s[j] != c),
            None => forall|j: int| from <= j < s.len() ==> s[j] != c,
        },
    decreases s.len() - from,
{
    if from < s.len() && s[from] != c {
        lemma_find_char_props(s, c, from + 1);
    }
}

/// Two string slices hold the same characters.
pub fn str_eq(a: &str, b: &str) -> (r: bool)
    ensures
        r == (a@ == b@),
{
    let n = a.unicode_len();
    let m = b.unicode_len();
    if n != m {
        return false;
    }
    let r = match_at_exec(a, b, 0);
    proof {
        assert(a@.subrange(0, n as int) =~= a@);
    }
    r
}

/// A line with one trailing carriage return removed.
pub open spec fn strip_cr(l: Seq<char>) -> Seq<char> {
    if l.len() > 0 && l[l.len() - 1] == '\r' {
        l.take(l.len() - 1)
    } else {
        l
    }
}

/// The lines of `s` from index `start` on: pieces between newline characters,
/// each with one trailing carriage return removed.
pub open spec fn spec_lines_from(s: Seq<char>, start: int) -> Seq<Seq<char>>
    decreases s.len() - start,
    via spec_lines_from_decreases
{
    if start < 0 || start >= s.len() {
        Seq::empty()
    } else {
        match spec_find_char(s, '\n', start) {
            None => seq![strip_cr(s.subrange(start, s.len() as int))],
            Some(p) => seq![strip_cr(s.subrange(start, p))] + spec_lines_from(s, p + 1),
        }
    }
}

#[via_fn]
proof fn spec_lines_from_decreases(s: Seq<char>, start: int) {
    if !(start < 0 || start >= s.len()) {
        lemma_find_char_props(s, '\n', start);
    }
}

/// The lines of `s`, as `str::lines` yields them.
pub open spec fn spec_lines(s: Seq<char>) -> Seq<Seq<char>> {
    spec_lines_from(s, 0)
}

/// A copy of the piece of `s` between `from` and `to`, with one trailing
/// carriage return removed.
fn copy_line(s: &str, from: usize, to: usize) -> (r: String)
    requires
        from <= to <= s@.len(),
    ensures
        r@ == strip_cr(s@.subrange(from as int, to as int)),
{
    let piece = if to > from && s.get_char(to - 1) == '\r' {
        s.substring_char(from, to - 1)
    } else {
        s.substring_char(from, to)
    };
    proof {
        let l = s@.subrange(from as int, to as int);
        if to > from && s@[to - 1] == '\r' {
            assert(l[l.len() - 1] == s@[to - 1]);
            assert(s@.subrange(from as int, to - 1) =~= l.take(l.len() - 1));
        }
    }
    piece.to_owned()
}

/// Split `s` into its lines: the pieces between newline characters, each with
/// one trailing carriage return removed.
pub fn split_lines(s: &str) -> (r: Vec<String>)
    ensures
        r.deep_view() == spec_lines(s@),
{
    let n = s.unicode_len();
    let mut out: Vec<String> = Vec::new();
    let mut start: usize = 0;
    while start < n
        invariant
            n == s@.len(),
            start <= n,
            out.deep_view() + spec_lines_from(s@, start as int) == spec_lines(s@),
        decreases n - start,
    {
        let ghost prev = out.deep_view();
        match find_char_in(s, '\n', start) {
            Some(p) => {
                proof {
                    lemma_find_char_props(s@, '\n', start as int);
                }
                let line = copy_line(s, start, p);
                out.push(line);
                proof {
                    assert(out.deep_view() =~= prev.push(strip_cr(
                        s@.subrange(start as int, p as int),
                    )));
                    assert(prev.push(strip_cr(s@.subrange(start as int, p as int)))
                        + spec_lines_from(s@, p + 1) =~= prev + spec_lines_from(
                        s@,
                        start as int,
                    ));
                }
                start = p + 1;
            },
            None => {
                let line = copy_line(s, start, n);
                out.push(line);
                proof {
                    assert(out.deep_view() =~= prev.push(strip_cr(
                        s@.subrange(start as int, n as int),
                    )));
                    assert(prev.push(strip_cr(s@.subrange(start as int, n as int)))
                        + spec_lines_from(s@, start as int).skip(1) =~= prev + spec_lines_from(
                        s@,
                        start as int,
                    ));
                    assert(spec_lines_from(s@, start as int).skip(1) =~= Seq::empty());
                }
                start = n;
            },
        }
    }
    proof {
        assert(out.deep_view() + spec_lines_from(s@, start as int) =~= out.deep_view());
    }
    out
}

} // verus!
