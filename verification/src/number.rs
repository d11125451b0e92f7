//! Recognizing numeric properties.
//!
//! A numeric field of a data line is kept verbatim when its token reads as a
//! decimal floating-point literal, and rejected otherwise. The accepted
//! shape is the one Rust's standard library documents for parsing `f64` and
//! `f32` values: an optional sign, then `inf`, `infinity` or `nan` in any
//! letter case, or digits with at most one `.`, optionally followed by an
//! exponent part (`e` or `E`, an optional sign, and at least one digit).

use crate::text::is_digit;
use crate::text::is_digit_char;
use vstd::prelude::*;
use vstd::string::StrSliceExecFns;

verus! {

// ---------------------------------------------------------------------------
// The grammar
// ---------------------------------------------------------------------------

pub open spec fn is_sign_char(c: char) -> bool {
    c == '+' || c == '-'
}

/// `s` without its leading sign, if it has one.
pub open spec fn strip_sign(s: Seq<char>) -> Seq<char> {
    if s.len() > 0 && is_sign_char(s[0]) {
        s.subrange(1, s.len() as int)
    } else {
        s
    }
}

/// One character of a keyword, in either letter case.
pub open spec fn ci(a: char, lo: char, up: char) -> bool {
    a == lo || a == up
}

/// `inf`, `infinity` or `nan`, in any letter case.
pub open spec fn is_special(s: Seq<char>) -> bool {
    ||| (s.len() == 3 && ci(s[0], 'i', 'I') && ci(s[1], 'n', 'N') && ci(s[2], 'f', 'F'))
    ||| (s.len() == 8 && ci(s[0], 'i', 'I') && ci(s[1], 'n', 'N') && ci(s[2], 'f', 'F') && ci(
        s[3],
        'i',
        'I',
    ) && ci(s[4], 'n', 'N') && ci(s[5], 'i', 'I') && ci(s[6], 't', 'T') && ci(s[7], 'y', 'Y'))
    ||| (s.len() == 3 && ci(s[0], 'n', 'N') && ci(s[1], 'a', 'A') && ci(s[2], 'n', 'N'))
}

/// Digits with at most one decimal point and at least one digit.
pub open spec fn is_mantissa(s: Seq<char>) -> bool {
    &&& s.len() > 0
    &&& (forall|i: int| 0 <= i < s.len() ==> is_digit_char(s[i]) || s[i] == '.')
    &&& (forall|i: int, j: int|
        0 <= i < j < s.len() && s[i] == '.' ==> s[j] != '.')
    &&& (exists|i: int| 0 <= i < s.len() && is_digit_char(s[i]))
}

/// What may follow the exponent marker: an optional sign, then digits.
pub open spec fn is_exp_part(s: Seq<char>) -> bool {
    let t = strip_sign(s);
    t.len() > 0 && (forall|i: int| 0 <= i < t.len() ==> is_digit_char(t[i]))
}

/// The index of the first `e` or `E` in `s` at or after `i`, or `s.len()`.
pub open spec fn exp_marker_at(s: Seq<char>, i: int) -> int
    decreases s.len() - i,
{
    if i < 0 || i >= s.len() {
        s.len() as int
    } else if s[i] == 'e' || s[i] == 'E' {
        i
    } else {
        exp_marker_at(s, i + 1)
    }
}

pub proof fn lemma_exp_marker_bounds(s: Seq<char>, i: int)
    requires
        0 <= i <= s.len(),
    ensures
        i <= exp_marker_at(s, i) <= s.len(),
    decreases s.len() - i,
{
    if i < s.len() && !(s[i] == 'e' || s[i] == 'E') {
        lemma_exp_marker_bounds(s, i + 1);
    }
}

/// A mantissa, optionally followed by an exponent part after the first `e`
/// or `E`.
pub open spec fn is_number_text(t: Seq<char>) -> bool {
    let k = exp_marker_at(t, 0);
    if k == t.len() {
        is_mantissa(t)
    } else {
        is_mantissa(t.subrange(0, k)) && is_exp_part(t.subrange(k + 1, t.len() as int))
    }
}

/// Whether a token reads as a floating-point numeral.
pub open spec fn is_float_literal(s: Seq<char>) -> bool {
    let t = strip_sign(s);
    is_special(t) || is_number_text(t)
}

/// A blank token is not a numeral.
pub proof fn lemma_empty_not_float()
    ensures
        !is_float_literal(Seq::<char>::empty()),
{
    assert(strip_sign(Seq::<char>::empty()) =~= Seq::<char>::empty());
}

// ---------------------------------------------------------------------------
// The recognizer
// ---------------------------------------------------------------------------

fn is_special_text(t: &str) -> (r: bool)
    ensures
        r == is_special(t@),
{
    let m = t.unicode_len();
    if m == 3 {
        let c0 = t.get_char(0);
        let c1 = t.get_char(1);
        let c2 = t.get_char(2);
        ((c0 == 'i' || c0 == 'I') && (c1 == 'n' || c1 == 'N') && (c2 == 'f' || c2 == 'F')) || ((c0
            == 'n' || c0 == 'N') && (c1 == 'a' || c1 == 'A') && (c2 == 'n' || c2 == 'N'))
    } else if m == 8 {
        let c0 = t.get_char(0);
        let c1 = t.get_char(1);
        let c2 = t.get_char(2);
        let c3 = t.get_char(3);
        let c4 = t.get_char(4);
        let c5 = t.get_char(5);
        let c6 = t.get_char(6);
        let c7 = t.get_char(7);
        (c0 == 'i' || c0 == 'I') && (c1 == 'n' || c1 == 'N') && (c2 == 'f' || c2 == 'F') && (c3
            == 'i' || c3 == 'I') && (c4 == 'n' || c4 == 'N') && (c5 == 'i' || c5 == 'I') && (c6
            == 't' || c6 == 'T') && (c7 == 'y' || c7 == 'Y')
    } else {
        false
    }
}

fn is_number_exec(t: &str) -> (r: bool)
    ensures
        r == is_number_text(t@),
{
    let m = t.unicode_len();
    let mut j: usize = 0;
    let mut seen_digit = false;
    let mut seen_dot = false;
    while j < m && (is_digit(t.get_char(j)) || t.get_char(j) == '.')
        invariant
            0 <= j <= m,
            m == t@.len(),
            exp_marker_at(t@, 0) == exp_marker_at(t@, j as int),
            forall|x: int| 0 <= x < j ==> is_digit_char(t@[x]) || t@[x] == '.',
            seen_digit == exists|x: int| 0 <= x < j && is_digit_char(t@[x]),
            seen_dot == exists|x: int| 0 <= x < j && t@[x] == '.',
            forall|x: int, y: int| 0 <= x < y < j && t@[x] == '.' ==> t@[y] != '.',
        decreases m - j,
    {
        let c = t.get_char(j);
        if c == '.' {
            if seen_dot {
                // A second decimal point sinks both readings: with or without
                // an exponent part, the mantissa would hold two points.
                proof {
                    assert(exp_marker_at(t@, j as int) == exp_marker_at(t@, j + 1));
                    lemma_exp_marker_bounds(t@, j + 1);
                    let k = exp_marker_at(t@, 0);
                    assert(k > j);
                    let x = choose|x: int| 0 <= x < j && t@[x] == '.';
                    if k < t@.len() {
                        let sub = t@.subrange(0, k);
                        assert(sub[x] == '.' && sub[j as int] == '.');
                        assert(!is_mantissa(sub));
                    } else {
                        assert(!is_mantissa(t@));
                    }
                }
                return false;
            }
            seen_dot = true;
        } else {
            seen_digit = true;
        }
        j += 1;
    }
    if j == m {
        proof {
            if seen_digit {
                assert(is_mantissa(t@));
            }
        }
        return seen_digit;
    }
    let c = t.get_char(j);
    if !(c == 'e' || c == 'E') {
        // Some character is neither a digit, a point, nor an exponent
        // marker: whatever range the mantissa covers, it contains it.
        proof {
            assert(exp_marker_at(t@, j as int) == exp_marker_at(t@, j + 1));
            lemma_exp_marker_bounds(t@, j + 1);
            let k = exp_marker_at(t@, 0);
            assert(k > j);
            if k < t@.len() {
                let sub = t@.subrange(0, k);
                assert(sub[j as int] == t@[j as int]);
                assert(!is_mantissa(sub));
            } else {
                assert(!is_mantissa(t@));
            }
        }
        return false;
    }
    assert(exp_marker_at(t@, 0) == j);
    let ghost mant = t@.subrange(0, j as int);
    if !seen_digit {
        proof {
            if is_mantissa(mant) {
                let x = choose|x: int| 0 <= x < mant.len() && is_digit_char(mant[x]);
                assert(mant[x] == t@[x]);
                assert(is_digit_char(t@[x]));
            }
        }
        return false;
    }
    proof {
        assert forall|x: int| 0 <= x < mant.len() implies is_digit_char(mant[x]) || mant[x]
            == '.' by {
            assert(mant[x] == t@[x]);
        }
        let w = choose|x: int| 0 <= x < j && is_digit_char(t@[x]);
        assert(mant[w] == t@[w]);
        assert(is_mantissa(mant));
    }
    // The exponent part: an optional sign, then at least one digit.
    let mut p = j + 1;
    if p < m {
        let c2 = t.get_char(p);
        if c2 == '+' || c2 == '-' {
            p += 1;
        }
    }
    proof {
        assert(strip_sign(t@.subrange(j + 1, m as int)) =~= t@.subrange(p as int, m as int));
    }
    if p == m {
        return false;
    }
    let mut q = p;
    while q < m
        invariant
            j < p <= q <= m,
            p < m,
            m == t@.len(),
            t@[j as int] == 'e' || t@[j as int] == 'E',
            exp_marker_at(t@, 0) == j,
            is_mantissa(t@.subrange(0, j as int)),
            strip_sign(t@.subrange(j + 1, m as int)) == t@.subrange(p as int, m as int),
            forall|x: int| p <= x < q ==> is_digit_char(t@[x]),
        decreases m - q,
    {
        if !is_digit(t.get_char(q)) {
            proof {
                let stripped = t@.subrange(p as int, m as int);
                assert(stripped[q - p] == t@[q as int]);
                assert(!is_exp_part(t@.subrange(j + 1, m as int)));
            }
            return false;
        }
        q += 1;
    }
    proof {
        let stripped = t@.subrange(p as int, m as int);
        assert forall|x: int| 0 <= x < stripped.len() implies is_digit_char(stripped[x]) by {
            assert(stripped[x] == t@[p + x]);
        }
        assert(is_exp_part(t@.subrange(j + 1, m as int)));
    }
    true
}

/// Whether a token reads as a floating-point numeral.
pub fn is_valid_number(s: &str) -> (r: bool)
    ensures
        r == is_float_literal(s@),
{
    let n = s.unicode_len();
    let start: usize = if n > 0 && (s.get_char(0) == '+' || s.get_char(0) == '-') {
        1
    } else {
        0
    };
    let t = s.substring_char(start, n);
    proof {
        assert(t@ =~= strip_sign(s@));
    }
    if is_special_text(t) {
        return true;
    }
    is_number_exec(t)
}

// ---------------------------------------------------------------------------
// The decode of one numeric property
// ---------------------------------------------------------------------------

/// The message a malformed numeric property is rejected with.
pub open spec fn float_error_msg(tok: Seq<char>) -> Seq<char> {
    if tok.len() == 0 {
        "cannot parse float from empty string"@
    } else {
        "invalid float literal"@
    }
}

/// The decode of one numeric property: the token itself when it reads as a
/// numeral, otherwise the message reported for the line.
pub open spec fn number_field(tok: Seq<char>) -> Result<Seq<char>, Seq<char>> {
    if is_float_literal(tok) {
        Ok(tok)
    } else {
        Err(float_error_msg(tok))
    }
}

} // verus!
