//! Character-level text utilities: white space, trimming, searching,
//! tokenizing, and splitting a document into lines.

use vstd::prelude::*;
use vstd::string::StrSliceExecFns;

verus! {

// ---------------------------------------------------------------------------
// Character classes
// ---------------------------------------------------------------------------

/// The Unicode `White_Space` characters: the separators that the tokenizer
/// and the trimmer treat as blank.
pub open spec fn is_space_char(c: char) -> bool {
    ||| c == ' '
    ||| ('\u{09}' <= c && c <= '\u{0d}')
    ||| c == '\u{85}'
    ||| c == '\u{a0}'
    ||| c == '\u{1680}'
    ||| ('\u{2000}' <= c && c <= '\u{200a}')
    ||| c == '\u{2028}'
    ||| c == '\u{2029}'
    ||| c == '\u{202f}'
    ||| c == '\u{205f}'
    ||| c == '\u{3000}'
}

pub fn is_space(c: char) -> (r: bool)
    ensures
        r == is_space_char(c),
{
    c == ' ' || ('\u{09}' <= c && c <= '\u{0d}') || c == '\u{85}' || c == '\u{a0}'
        || c == '\u{1680}' || ('\u{2000}' <= c && c <= '\u{200a}') || c == '\u{2028}'
        || c == '\u{2029}' || c == '\u{202f}' || c == '\u{205f}' || c == '\u{3000}'
}

/// An ASCII decimal digit.
pub open spec fn is_digit_char(c: char) -> bool {
    '0' <= c && c <= '9'
}

pub fn is_digit(c: char) -> (r: bool)
    ensures
        r == is_digit_char(c),
{
    '0' <= c && c <= '9'
}

// ---------------------------------------------------------------------------
// Searching
// ---------------------------------------------------------------------------

/// The index of the first occurrence of `c` in `s` at or after `i`, or
/// `s.len()` when there is none.
pub open spec fn find_at(s: Seq<char>, c: char, i: int) -> int
    decreases s.len() - i,
{
    if i < 0 || i >= s.len() {
        s.len() as int
    } else if s[i] == c {
        i
    } else {
        find_at(s, c, i + 1)
    }
}

pub proof fn lemma_find_at_bounds(s: Seq<char>, c: char, i: int)
    requires
        0 <= i <= s.len(),
    ensures
        i <= find_at(s, c, i) <= s.len(),
        find_at(s, c, i) < s.len() ==> s[find_at(s, c, i)] == c,
        forall|j: int| i <= j < find_at(s, c, i) ==> s[j] != c,
    decreases s.len() - i,
{
    if i < s.len() && s[i] != c {
        lemma_find_at_bounds(s, c, i + 1);
    }
}

/// Finds the first occurrence of `c` at or after `from`.
pub fn find_from(s: &str, c: char, from: usize) -> (r: usize)
    requires
        from <= s@.len(),
    ensures
        r == find_at(s@, c, from as int),
        from <= r <= s@.len(),
        r < s@.len() ==> s@[r as int] == c,
{
    let n = s.unicode_len();
    let mut i = from;
    while i < n
        invariant
            from <= i <= n,
            n == s@.len(),
            find_at(s@, c, from as int) == find_at(s@, c, i as int),
        decreases n - i,
    {
        if s.get_char(i) == c {
            return i;
        }
        i += 1;
    }
    i
}

// ---------------------------------------------------------------------------
// Trimming
// ---------------------------------------------------------------------------

/// The index of the first character at or after `i` that is not white space,
/// or `s.len()` when the rest of `s` is blank.
pub open spec fn skip_spaces(s: Seq<char>, i: int) -> int
    decreases s.len() - i,
{
    if i < 0 || i >= s.len() {
        s.len() as int
    } else if !is_space_char(s[i]) {
        i
    } else {
        skip_spaces(s, i + 1)
    }
}

/// The index just past the last character of `s[..i]` that is not white
/// space, or `0` when all of `s[..i]` is blank.
pub open spec fn trim_end_at(s: Seq<char>, i: int) -> int
    decreases i,
{
    if i <= 0 {
        0
    } else if !is_space_char(s[i - 1]) {
        i
    } else {
        trim_end_at(s, i - 1)
    }
}

/// `s` with leading and trailing white space removed.
pub open spec fn trim_spec(s: Seq<char>) -> Seq<char> {
    let a = skip_spaces(s, 0);
    if a == s.len() {
        Seq::empty()
    } else {
        s.subrange(a, trim_end_at(s, s.len() as int))
    }
}

pub proof fn lemma_skip_spaces_bounds(s: Seq<char>, i: int)
    requires
        0 <= i <= s.len(),
    ensures
        i <= skip_spaces(s, i) <= s.len(),
        skip_spaces(s, i) < s.len() ==> !is_space_char(s[skip_spaces(s, i)]),
    decreases s.len() - i,
{
    if i < s.len() && is_space_char(s[i]) {
        lemma_skip_spaces_bounds(s, i + 1);
    }
}

pub proof fn lemma_trim_end_bounds(s: Seq<char>, i: int, a: int)
    requires
        0 <= a < i <= s.len(),
        !is_space_char(s[a]),
    ensures
        a < trim_end_at(s, i) <= i,
        !is_space_char(s[trim_end_at(s, i) - 1]),
    decreases i,
{
    if i > a + 1 && is_space_char(s[i - 1]) {
        lemma_trim_end_bounds(s, i - 1, a);
    }
}

/// Removes leading and trailing white space.
pub fn trim<'a>(s: &'a str) -> (r: &'a str)
    ensures
        r@ == trim_spec(s@),
{
    let n = s.unicode_len();
    let mut a: usize = 0;
    while a < n && is_space(s.get_char(a))
        invariant
            0 <= a <= n,
            n == s@.len(),
            skip_spaces(s@, 0) == skip_spaces(s@, a as int),
        decreases n - a,
    {
        a += 1;
    }
    if a == n {
        let r = s.substring_char(0, 0);
        proof {
            assert(r@ =~= trim_spec(s@));
        }
        return r;
    }
    assert(a == skip_spaces(s@, 0));
    let mut b: usize = n;
    while b > a + 1 && is_space(s.get_char(b - 1))
        invariant
            a < b <= n,
            n == s@.len(),
            trim_end_at(s@, n as int) == trim_end_at(s@, b as int),
        decreases b,
    {
        b -= 1;
    }
    proof {
        if b == a + 1 {
            assert(trim_end_at(s@, b as int) == b || trim_end_at(s@, b as int) == trim_end_at(
                s@,
                a as int,
            ));
            assert(trim_end_at(s@, a as int) <= a) by {
                lemma_trim_end_le(s@, a as int);
            }
            assert(!is_space_char(s@[a as int]));
            assert(trim_end_at(s@, b as int) == b);
        }
    }
    s.substring_char(a, b)
}

pub proof fn lemma_trim_end_le(s: Seq<char>, i: int)
    requires
        0 <= i,
    ensures
        trim_end_at(s, i) <= i,
    decreases i,
{
    if i > 0 && is_space_char(s[i - 1]) {
        lemma_trim_end_le(s, i - 1);
    }
}

// ---------------------------------------------------------------------------
// String equality and copying
// ---------------------------------------------------------------------------

/// Compares two string slices character by character.
pub fn str_eq(a: &str, b: &str) -> (r: bool)
    ensures
        r == (a@ == b@),
{
    let n = a.unicode_len();
    if n != b.unicode_len() {
        return false;
    }
    let mut i: usize = 0;
    while i < n
        invariant
            0 <= i <= n,
            n == a@.len() == b@.len(),
            forall|j: int| 0 <= j < i ==> a@[j] == b@[j],
        decreases n - i,
    {
        if a.get_char(i) != b.get_char(i) {
            return false;
        }
        i += 1;
    }
    proof {
        assert(a@ =~= b@);
    }
    true
}

/// Copies `s[from..to]` into an owned string.
pub fn substring_string(s: &str, from: usize, to: usize) -> (r: String)
    requires
        from <= to <= s@.len(),
    ensures
        r@ == s@.subrange(from as int, to as int),
{
    s.substring_char(from, to).to_owned()
}

// ---------------------------------------------------------------------------
// Tokenizing
// ---------------------------------------------------------------------------

/// The index just past the run of non-white-space characters starting at `i`.
pub open spec fn token_run_end(s: Seq<char>, i: int) -> int
    decreases s.len() - i,
{
    if i < 0 || i >= s.len() || is_space_char(s[i]) {
        i
    } else {
        token_run_end(s, i + 1)
    }
}

pub proof fn lemma_token_run_end_bounds(s: Seq<char>, i: int)
    requires
        0 <= i <= s.len(),
    ensures
        i <= token_run_end(s, i) <= s.len(),
        i < s.len() && !is_space_char(s[i]) ==> token_run_end(s, i) > i,
    decreases s.len() - i,
{
    if i < s.len() && !is_space_char(s[i]) {
        lemma_token_run_end_bounds(s, i + 1);
    }
}

/// The white-space-delimited tokens of `s[i..]`, in order.
pub open spec fn scan_tokens(s: Seq<char>, i: int) -> Seq<Seq<char>>
    decreases s.len() - i,
    via scan_tokens_decreases
{
    if i < 0 || i >= s.len() {
        Seq::empty()
    } else if is_space_char(s[i]) {
        scan_tokens(s, i + 1)
    } else {
        seq![s.subrange(i, token_run_end(s, i))] + scan_tokens(s, token_run_end(s, i))
    }
}

#[via_fn]
proof fn scan_tokens_decreases(s: Seq<char>, i: int) {
    if 0 <= i < s.len() {
        lemma_token_run_end_bounds(s, i);
    }
}

/// The white-space-delimited tokens of `s`.
pub open spec fn tokens_of(s: Seq<char>) -> Seq<Seq<char>> {
    scan_tokens(s, 0)
}

/// Splits `s` into its white-space-delimited tokens; runs of white space of
/// any length separate tokens, and a blank string has none.
pub fn tokenize<'a>(s: &'a str) -> (r: Vec<&'a str>)
    ensures
        r.deep_view() == tokens_of(s@),
{
    let n = s.unicode_len();
    let mut out: Vec<&'a str> = Vec::new();
    let mut i: usize = 0;
    proof {
        assert(out.deep_view() =~= Seq::<Seq<char>>::empty());
    }
    while i < n
        invariant
            0 <= i <= n,
            n == s@.len(),
            tokens_of(s@) == out.deep_view() + scan_tokens(s@, i as int),
        decreases n - i,
    {
        if is_space(s.get_char(i)) {
            i += 1;
        } else {
            let ghost start = i as int;
            let mut j = i + 1;
            proof {
                lemma_token_run_end_bounds(s@, start);
            }
            while j < n && !is_space(s.get_char(j))
                invariant
                    0 <= start < j <= n,
                    n == s@.len(),
                    token_run_end(s@, start) == token_run_end(s@, j as int),
                decreases n - j,
            {
                j += 1;
            }
            assert(j == token_run_end(s@, start));
            let tok = s.substring_char(i, j);
            let ghost before = out.deep_view();
            out.push(tok);
            proof {
                assert(out.deep_view() =~= before.push(tok@));
                assert(out.deep_view() + scan_tokens(s@, j as int) =~= before + (seq![
                    s@.subrange(start, token_run_end(s@, start)),
                ] + scan_tokens(s@, token_run_end(s@, start))));
            }
            i = j;
        }
    }
    proof {
        assert(tokens_of(s@) =~= out.deep_view());
    }
    out
}

// ---------------------------------------------------------------------------
// Splitting a document into lines
// ---------------------------------------------------------------------------

/// Removes one trailing carriage return, so that a document with `\r\n` line
/// endings reads the same as one with bare `\n`.
pub open spec fn strip_cr(t: Seq<char>) -> Seq<char> {
    if t.len() > 0 && t[t.len() - 1] == '\r' {
        t.subrange(0, t.len() - 1)
    } else {
        t
    }
}

/// The lines of `s[i..]`: segments separated by `\n`, each without its
/// terminator and without a trailing `\r`; a final terminator opens no
/// further line.
pub open spec fn lines_from(s: Seq<char>, i: int) -> Seq<Seq<char>>
    decreases s.len() - i,
    via lines_from_decreases
{
    if i < 0 || i >= s.len() {
        Seq::empty()
    } else {
        let k = find_at(s, '\n', i);
        if k == s.len() {
            seq![s.subrange(i, k)]
        } else {
            seq![strip_cr(s.subrange(i, k))] + lines_from(s, k + 1)
        }
    }
}

#[via_fn]
proof fn lines_from_decreases(s: Seq<char>, i: int) {
    if 0 <= i < s.len() {
        lemma_find_at_bounds(s, '\n', i);
    }
}

/// The lines of a document.
pub open spec fn lines_of(s: Seq<char>) -> Seq<Seq<char>> {
    lines_from(s, 0)
}

/// There are never more lines than characters.
pub proof fn lemma_lines_from_count(s: Seq<char>, i: int)
    requires
        0 <= i <= s.len(),
    ensures
        lines_from(s, i).len() <= s.len() - i + 1,
    decreases s.len() - i,
{
    if i < s.len() {
        lemma_find_at_bounds(s, '\n', i);
        let k = find_at(s, '\n', i);
        if k < s.len() {
            lemma_lines_from_count(s, k + 1);
        }
    }
}

/// Splits a document into its lines.
pub fn split_lines(s: &str) -> (r: Vec<String>)
    ensures
        r.deep_view() == lines_of(s@),
{
    let n = s.unicode_len();
    let mut out: Vec<String> = Vec::new();
    let mut i: usize = 0;
    proof {
        assert(out.deep_view() =~= Seq::<Seq<char>>::empty());
    }
    while i < n
        invariant
            0 <= i <= n,
            n == s@.len(),
            lines_of(s@) == out.deep_view() + lines_from(s@, i as int),
        decreases n - i,
    {
        let k = find_from(s, '\n', i);
        let ghost before = out.deep_view();
        if k == n {
            let line = substring_string(s, i, k);
            out.push(line);
            proof {
                assert(out.deep_view() =~= before.push(s@.subrange(i as int, k as int)));
                assert(out.deep_view() + lines_from(s@, n as int) =~= out.deep_view());
            }
            i = n;
        } else {
            let end = if k > i && s.get_char(k - 1) == '\r' {
                k - 1
            } else {
                k
            };
            let line = substring_string(s, i, end);
            out.push(line);
            proof {
                assert(line@ =~= strip_cr(s@.subrange(i as int, k as int)));
                assert(out.deep_view() =~= before.push(strip_cr(s@.subrange(i as int, k as int))));
                assert(out.deep_view() + lines_from(s@, k + 1) =~= before + (seq![
                    strip_cr(s@.subrange(i as int, k as int)),
                ] + lines_from(s@, k + 1)));
            }
            i = k + 1;
        }
    }
    proof {
        assert(lines_of(s@) =~= out.deep_view());
    }
    out
}

} // verus!
