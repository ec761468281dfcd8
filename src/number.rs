//! The JSON number grammar, as a check on text that stands for a number.
use vstd::prelude::*;

verus! {

pub open spec fn is_digit(b: u8) -> bool {
    48 <= b <= 57
}

/// How many digits follow, from position `i` of `s` on.
pub open spec fn digit_run(s: Seq<u8>, i: int) -> int
    decreases s.len() - i,
{
    if 0 <= i < s.len() && is_digit(s[i]) {
        1 + digit_run(s, i + 1)
    } else {
        0
    }
}

/// Whether `s` is a JSON number: an optional minus sign, an integer part
/// without leading zeros, an optional fraction, an optional exponent.
pub open spec fn is_json_number(s: Seq<u8>) -> bool {
    let i0: int = if s.len() > 0 && s[0] == 45 { 1 } else { 0 };
    let n = digit_run(s, i0);
    let i1 = i0 + n;
    let has_frac = i1 < s.len() && s[i1] == 46;
    let f = if has_frac { digit_run(s, i1 + 1) } else { 0 };
    let i2 = if has_frac { i1 + 1 + f } else { i1 };
    let has_exp = i2 < s.len() && (s[i2] == 101 || s[i2] == 69);
    let signed = has_exp && i2 + 1 < s.len() && (s[i2 + 1] == 43 || s[i2 + 1] == 45);
    let i3 = if has_exp { i2 + 1 + (if signed { 1int } else { 0 }) } else { i2 };
    let e = if has_exp { digit_run(s, i3) } else { 0 };
    &&& n >= 1 && (s[i0] != 48 || n == 1)
    &&& !has_frac || f >= 1
    &&& !has_exp || e >= 1
    &&& i3 + e == s.len()
}

proof fn lemma_digit_run_bounds(s: Seq<u8>, i: int)
    requires
        0 <= i,
    ensures
        0 <= digit_run(s, i),
        i + digit_run(s, i) <= if i <= s.len() { s.len() as int } else { i },
    decreases s.len() - i,
{
    if 0 <= i < s.len() && is_digit(s[i]) {
        lemma_digit_run_bounds(s, i + 1);
    }
}

/// The position after the digits that start at `i`.
fn skip_digits(s: &[u8], i: usize) -> (r: usize)
    requires
        i <= s@.len(),
    ensures
        r == i + digit_run(s@, i as int),
{
    let mut j = i;
    while j < s.len() && 48 <= s[j] && s[j] <= 57
        invariant
            i <= j <= s@.len(),
            digit_run(s@, i as int) == (j - i) + digit_run(s@, j as int),
        decreases s@.len() - j,
    {
        j = j + 1;
    }
    j
}

/// Whether `s` is a JSON number.
pub fn json_number(s: &[u8]) -> (r: bool)
    ensures
        r == is_json_number(s@),
{
    let len = s.len();
    let i0: usize = if len > 0 && s[0] == 45 { 1 } else { 0 };
    let i1 = skip_digits(s, i0);
    proof {
        lemma_digit_run_bounds(s@, i0 as int);
    }
    let n = i1 - i0;
    if n == 0 || (s[i0] == 48 && n != 1) {
        return false;
    }
    let has_frac = i1 < len && s[i1] == 46;
    let i2 = if has_frac {
        let k = skip_digits(s, i1 + 1);
        proof {
            lemma_digit_run_bounds(s@, i1 + 1);
        }
        if k == i1 + 1 {
            return false;
        }
        k
    } else {
        i1
    };
    let has_exp = i2 < len && (s[i2] == 101 || s[i2] == 69);
    if !has_exp {
        return i2 == len;
    }
    let signed = i2 + 1 < len && (s[i2 + 1] == 43 || s[i2 + 1] == 45);
    let i3 = if signed { i2 + 2 } else { i2 + 1 };
    let i4 = skip_digits(s, i3);
    proof {
        lemma_digit_run_bounds(s@, i3 as int);
    }
    i4 > i3 && i4 == len
}

} // verus!
