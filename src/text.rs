//! Character-level helpers shared by the parsers and the rewrite passes.
use vstd::prelude::*;

verus! {

/// Relies on `str::chars` collected into a `Vec`: the characters of the
/// string, in order.
#[verifier::external_body]
pub(crate) fn chars_of(s: &str) -> (r: Vec<char>)
    ensures
        r@ == s@,
{
    s.chars().collect()
}

pub open spec fn is_digit(c: char) -> bool {
    '0' <= c && c <= '9'
}

pub open spec fn all_digits(s: Seq<char>) -> bool {
    forall|i: int| 0 <= i < s.len() ==> is_digit(#[trigger] s[i])
}

/// The number that a sequence of decimal digits spells.
pub open spec fn digits_value(s: Seq<char>) -> nat
    decreases s.len(),
{
    if s.len() == 0 {
        0
    } else {
        digits_value(s.drop_last()) * 10 + ((s.last() as nat) - ('0' as nat)) as nat
    }
}

/// Whether `lit` occurs in `s` at position `i`.
pub open spec fn lit_at(s: Seq<char>, i: int, lit: Seq<char>) -> bool {
    0 <= i && i + lit.len() <= s.len() && s.subrange(i, i + lit.len()) == lit
}

pub fn is_ascii_digit(c: char) -> (r: bool)
    ensures
        r == is_digit(c),
{
    '0' <= c && c <= '9'
}

/// Exec form of `lit_at`.
pub fn has_lit_at(s: &Vec<char>, i: usize, lit: &str) -> (r: bool)
    ensures
        r == lit_at(s@, i as int, lit@),
{
    let l = chars_of(lit);
    if l.len() > s.len() || i > s.len() - l.len() {
        return false;
    }
    let mut j: usize = 0;
    while j < l.len()
        invariant
            i + l@.len() <= s@.len(),
            s@.len() <= usize::MAX,
            l@ == lit@,
            j <= l@.len(),
            forall|k: int| 0 <= k < j ==> s@[i + k] == l@[k],
        decreases l.len() - j,
    {
        if s[i + j] != l[j] {
            assert(s@.subrange(i as int, i + l@.len())[j as int] != l@[j as int]);
            return false;
        }
        j = j + 1;
    }
    assert(s@.subrange(i as int, i + l@.len()) =~= l@);
    true
}

} // verus!

verus! {

/// Position of the first digit at or after `j` (or the end).
pub open spec fn first_digit(s: Seq<char>, j: int) -> int
    decreases s.len() - j,
{
    if 0 <= j < s.len() && !is_digit(s[j]) {
        first_digit(s, j + 1)
    } else {
        j
    }
}

/// End of the run of digits that starts at `j`.
pub open spec fn digit_run_end(s: Seq<char>, j: int) -> int
    decreases s.len() - j,
{
    if 0 <= j < s.len() && is_digit(s[j]) {
        digit_run_end(s, j + 1)
    } else {
        j
    }
}

/// `s` with its leading non-digit characters removed.
pub open spec fn skip_non_digits(s: Seq<char>) -> Seq<char> {
    s.subrange(first_digit(s, 0), s.len() as int)
}

pub open spec fn pow10(n: nat) -> nat
    decreases n,
{
    if n == 0 {
        1
    } else {
        10 * pow10((n - 1) as nat)
    }
}

pub proof fn lemma_first_digit_bounds(s: Seq<char>, j: int)
    requires
        0 <= j <= s.len(),
    ensures
        j <= first_digit(s, j) <= s.len(),
        forall|k: int| j <= k < first_digit(s, j) ==> !is_digit(#[trigger] s[k]),
    decreases s.len() - j,
{
    if j < s.len() && !is_digit(s[j]) {
        lemma_first_digit_bounds(s, j + 1);
    }
}

pub proof fn lemma_digit_run_bounds(s: Seq<char>, j: int)
    requires
        0 <= j <= s.len(),
    ensures
        j <= digit_run_end(s, j) <= s.len(),
        all_digits(s.subrange(j, digit_run_end(s, j))),
        digit_run_end(s, j) < s.len() ==> !is_digit(s[digit_run_end(s, j)]),
    decreases s.len() - j,
{
    if j < s.len() && is_digit(s[j]) {
        lemma_digit_run_bounds(s, j + 1);
        let e = digit_run_end(s, j);
        assert forall|k: int| 0 <= k < e - j implies is_digit(#[trigger] s.subrange(j, e)[k]) by {
            if k > 0 {
                assert(s.subrange(j, e)[k] == s.subrange(j + 1, e)[k - 1]);
            }
        }
    }
}

pub fn first_digit_exec(s: &Vec<char>) -> (r: usize)
    ensures
        r as int == first_digit(s@, 0),
        r <= s@.len(),
{
    let mut k: usize = 0;
    while k < s.len() && !is_ascii_digit(s[k])
        invariant
            k <= s@.len(),
            first_digit(s@, k as int) == first_digit(s@, 0),
        decreases s.len() - k,
    {
        k = k + 1;
    }
    k
}

pub fn digit_run_exec(s: &Vec<char>, j: usize) -> (r: usize)
    requires
        j <= s@.len(),
    ensures
        r as int == digit_run_end(s@, j as int),
        j <= r <= s@.len(),
{
    let mut k = j;
    while k < s.len() && is_ascii_digit(s[k])
        invariant
            j <= k <= s@.len(),
            digit_run_end(s@, k as int) == digit_run_end(s@, j as int),
        decreases s.len() - k,
    {
        k = k + 1;
    }
    k
}

proof fn lemma_digits_prefix_le(x: Seq<char>, a: int, b: int)
    requires
        0 <= a <= b <= x.len(),
    ensures
        digits_value(x.subrange(0, a)) <= digits_value(x.subrange(0, b)),
    decreases b - a,
{
    if a < b {
        lemma_digits_prefix_le(x, a, b - 1);
        assert(x.subrange(0, b).drop_last() =~= x.subrange(0, b - 1));
    }
}

/// The number spelled by the digits `s[lo..hi]`, when it is at most `max`.
pub fn digits_value_upto(s: &Vec<char>, lo: usize, hi: usize, max: u64) -> (r: Option<u64>)
    requires
        lo <= hi <= s@.len(),
        all_digits(s@.subrange(lo as int, hi as int)),
    ensures
        digits_value(s@.subrange(lo as int, hi as int)) <= max ==> r == Some(
            digits_value(s@.subrange(lo as int, hi as int)) as u64,
        ),
        digits_value(s@.subrange(lo as int, hi as int)) > max ==> r is None,
{
    let ghost x = s@.subrange(lo as int, hi as int);
    let mut acc: u64 = 0;
    let mut k = lo;
    assert(x.subrange(0, 0) =~= Seq::<char>::empty());
    while k < hi
        invariant
            lo <= k <= hi <= s@.len(),
            x == s@.subrange(lo as int, hi as int),
            all_digits(x),
            acc as nat == digits_value(x.subrange(0, k - lo)),
            acc <= max,
        decreases hi - k,
    {
        let ghost c = x[k - lo];
        assert(s[k as int] == c);
        assert(is_digit(c));
        let d = (s[k] as u32 - '0' as u32) as u64;
        assert(x.subrange(0, k + 1 - lo).drop_last() =~= x.subrange(0, k - lo));
        assert(x.subrange(0, k + 1 - lo).last() == c);
        let next = match acc.checked_mul(10) {
            Some(m) => m.checked_add(d),
            None => None,
        };
        match next {
            Some(v) if v <= max => {
                acc = v;
            },
            _ => {
                proof {
                    lemma_digits_prefix_le(x, k + 1 - lo, x.len() as int);
                    assert(x.subrange(0, x.len() as int) =~= x);
                }
                return None;
            },
        }
        k = k + 1;
    }
    assert(x.subrange(0, hi - lo) =~= x);
    Some(acc)
}

} // verus!

verus! {

/// The texts of a sequence of strings.
pub open spec fn strings_view(v: Seq<String>) -> Seq<Seq<char>> {
    v.map_values(|s: String| s@)
}

pub proof fn lemma_digits_lt_pow10(x: Seq<char>)
    requires
        all_digits(x),
    ensures
        digits_value(x) < pow10(x.len()),
    decreases x.len(),
{
    if x.len() > 0 {
        let y = x.drop_last();
        assert(all_digits(y)) by {
            assert forall|i: int| 0 <= i < y.len() implies is_digit(#[trigger] y[i]) by {
                assert(y[i] == x[i]);
            }
        }
        lemma_digits_lt_pow10(y);
        assert(is_digit(x[x.len() - 1]));
        let d = ((x.last() as nat) - ('0' as nat)) as nat;
        assert(d <= 9);
        let v = digits_value(y);
        let p = pow10(y.len());
        assert(v * 10 + d < p * 10) by (nonlinear_arith)
            requires
                v < p,
                d <= 9,
        ;
    }
}

pub proof fn lemma_pow10_add(a: nat, b: nat)
    ensures
        pow10(a + b) == pow10(a) * pow10(b),
    decreases a,
{
    if a > 0 {
        lemma_pow10_add((a - 1) as nat, b);
        assert(pow10(a + b) == 10 * pow10((a - 1 + b) as nat));
        let x = pow10((a - 1) as nat);
        let y = pow10(b);
        assert(pow10(a) == 10 * x);
        assert(10 * (x * y) == (10 * x) * y) by (nonlinear_arith);
    } else {
        assert(pow10(0) == 1);
        assert(a + b == b);
    }
}

} // verus!
