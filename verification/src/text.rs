//! Small text helpers shared by the display builders and the save codec:
//! decimal rendering of numbers and conversions between strings and
//! character vectors.
use vstd::prelude::*;
use vstd::string::StrSliceExecFns;

verus! {

/// The digit character for a value in `[0, 9]`.
pub open spec fn spec_digit(d: int) -> char {
    if d == 0 {
        '0'
    } else if d == 1 {
        '1'
    } else if d == 2 {
        '2'
    } else if d == 3 {
        '3'
    } else if d == 4 {
        '4'
    } else if d == 5 {
        '5'
    } else if d == 6 {
        '6'
    } else if d == 7 {
        '7'
    } else if d == 8 {
        '8'
    } else {
        '9'
    }
}

/// Decimal digit sequence of `n`, most significant digit first, without
/// leading zeros (a single zero for `n == 0`).
pub open spec fn spec_u32_dec(n: int) -> Seq<char>
    decreases n,
{
    if n < 10 {
        seq![spec_digit(n)]
    } else {
        spec_u32_dec(n / 10).push(spec_digit(n % 10))
    }
}

/// Relies on `String::push`: appends exactly the one character.
#[verifier::external_body]
pub fn push_char(s: &mut String, c: char)
    ensures
        final(s)@ == old(s)@.push(c),
{
    s.push(c);
}

/// Relies on `String::pop`: removes and returns the last character, and
/// leaves an empty string alone.
#[verifier::external_body]
pub fn pop_char(s: &mut String) -> (r: Option<char>)
    ensures
        old(s)@.len() == 0 ==> final(s)@ == old(s)@ && r is None,
        old(s)@.len() > 0 ==> final(s)@ == old(s)@.drop_last() && r == Some(old(s)@.last()),
{
    s.pop()
}

/// The digit character of a value below ten.
fn digit_char(d: u32) -> (r: char)
    requires
        d < 10,
    ensures
        r == spec_digit(d as int),
{
    match d {
        0 => '0',
        1 => '1',
        2 => '2',
        3 => '3',
        4 => '4',
        5 => '5',
        6 => '6',
        7 => '7',
        8 => '8',
        _ => '9',
    }
}

/// Renders `n` in decimal.
pub fn u32_to_string(n: u32) -> (r: String)
    ensures
        r@ == spec_u32_dec(n as int),
    decreases n,
{
    if n < 10 {
        let mut s = String::new();
        push_char(&mut s, digit_char(n));
        assert(s@ == spec_u32_dec(n as int));
        s
    } else {
        let mut s = u32_to_string(n / 10);
        push_char(&mut s, digit_char(n % 10));
        s
    }
}

/// Renders `n` in decimal as a character vector.
pub fn u32_dec_chars(n: u32) -> (r: Vec<char>)
    ensures
        r@ == spec_u32_dec(n as int),
    decreases n,
{
    if n < 10 {
        let mut v: Vec<char> = Vec::new();
        v.push(digit_char(n));
        proof {
            assert(v@ =~= spec_u32_dec(n as int));
        }
        v
    } else {
        let mut v = u32_dec_chars(n / 10);
        v.push(digit_char(n % 10));
        v
    }
}

/// Compares two strings character by character.
pub fn str_eq(a: &str, b: &str) -> (r: bool)
    ensures
        r == (a@ == b@),
{
    let alen = a.unicode_len();
    let blen = b.unicode_len();
    if alen != blen {
        return false;
    }
    let mut i: usize = 0;
    while i < alen
        invariant
            i <= alen,
            alen == a@.len(),
            alen == b@.len(),
            forall|j: int| 0 <= j < i ==> a@[j] == b@[j],
        decreases alen - i,
    {
        if a.get_char(i) != b.get_char(i) {
            return false;
        }
        i = i + 1;
    }
    proof {
        assert(a@ =~= b@);
    }
    true
}

/// Copies the characters of `s` into a vector.
pub fn str_to_chars(s: &str) -> (r: Vec<char>)
    ensures
        r@ == s@,
{
    let len = s.unicode_len();
    let mut r: Vec<char> = Vec::new();
    let mut i: usize = 0;
    while i < len
        invariant
            i <= len,
            len == s@.len(),
            r@ == s@.take(i as int),
        decreases len - i,
    {
        r.push(s.get_char(i));
        i = i + 1;
        proof {
            assert(r@ =~= s@.take(i as int));
        }
    }
    proof {
        assert(r@ =~= s@);
    }
    r
}

/// Copies the characters of `v` between `i` and `j` into a fresh vector.
pub fn subvec(v: &Vec<char>, i: usize, j: usize) -> (r: Vec<char>)
    requires
        i <= j <= v@.len(),
    ensures
        r@ == v@.subrange(i as int, j as int),
{
    let mut r: Vec<char> = Vec::new();
    proof {
        assert(r@ =~= v@.subrange(i as int, i as int));
    }
    let mut k: usize = i;
    while k < j
        invariant
            i <= k <= j <= v@.len(),
            r@ == v@.subrange(i as int, k as int),
        decreases j - k,
    {
        r.push(v[k]);
        k = k + 1;
        proof {
            assert(r@ =~= v@.subrange(i as int, k as int));
        }
    }
    r
}

/// Builds a string out of a character vector.
pub fn chars_to_string(v: &Vec<char>) -> (r: String)
    ensures
        r@ == v@,
{
    let mut r = String::new();
    let mut i: usize = 0;
    while i < v.len()
        invariant
            i <= v@.len(),
            r@ == v@.take(i as int),
        decreases v@.len() - i,
    {
        push_char(&mut r, v[i]);
        i = i + 1;
        proof {
            assert(r@ =~= v@.take(i as int));
        }
    }
    proof {
        assert(r@ =~= v@);
    }
    r
}

/// First position at or after `i` holding `c`, if any.
pub open spec fn find_char(s: Seq<char>, i: int, c: char) -> Option<int>
    decreases s.len() - i,
{
    if !(0 <= i < s.len()) {
        None
    } else if s[i] == c {
        Some(i)
    } else {
        find_char(s, i + 1, c)
    }
}

/// A found position lies in range, holds `c`, and nothing before it back to
/// `i` does; a missing result means no `c` from `i` on.
pub proof fn lemma_find_char(s: Seq<char>, i: int, c: char)
    requires
        0 <= i,
    ensures
        match find_char(s, i, c) {
            Some(j) => i <= j < s.len() && s[j] == c && forall|k: int| i <= k < j ==> s[k] != c,
            None => forall|k: int| i <= k < s.len() ==> s[k] != c,
        },
    decreases s.len() - i,
{
    if i < s.len() && s[i] != c {
        lemma_find_char(s, i + 1, c);
    }
}


/// The literal `lit` occurs in `s` at position `i`.
pub open spec fn matches_at(s: Seq<char>, i: int, lit: Seq<char>) -> bool {
    0 <= i && i + lit.len() <= s.len() && s.subrange(i, i + lit.len()) == lit
}

/// A decimal digit.
pub open spec fn is_dec_digit(c: char) -> bool {
    48 <= c as u32 <= 57
}

/// Value of a digit character; zero for anything else.
pub open spec fn digit_val(c: char) -> int {
    if is_dec_digit(c) {
        c as u32 - 48
    } else {
        0
    }
}

/// First position at or after `i` holding a non-digit; the length when only
/// digits remain.
pub open spec fn digit_end(s: Seq<char>, i: int) -> int
    decreases s.len() - i,
{
    if 0 <= i < s.len() && is_dec_digit(s[i]) {
        digit_end(s, i + 1)
    } else {
        i
    }
}

/// Value of the digit run `s[i..j]`, read in decimal.
pub open spec fn digits_val(s: Seq<char>, i: int, j: int) -> int
    decreases j - i,
{
    if i >= j {
        0
    } else {
        digits_val(s, i, j - 1) * 10 + digit_val(s[j - 1])
    }
}

/// Digit-run values are never negative.
pub(crate) proof fn lemma_digits_val_nonneg(s: Seq<char>, i: int, j: int)
    ensures
        0 <= digits_val(s, i, j),
    decreases j - i,
{
    if i < j {
        lemma_digits_val_nonneg(s, i, j - 1);
    }
}

/// Digit-run values grow with the run.
pub(crate) proof fn lemma_digits_val_grows(s: Seq<char>, i: int, j: int, j2: int)
    requires
        j <= j2,
    ensures
        0 <= digits_val(s, i, j) <= digits_val(s, i, j2),
    decreases j2 - j,
{
    lemma_digits_val_nonneg(s, i, j);
    if j < j2 {
        lemma_digits_val_grows(s, i, j, j2 - 1);
        lemma_digits_val_nonneg(s, i, j2 - 1);
    }
}


/// Whether the literal `lit` occurs in `v` at position `i`.
pub(crate) fn lit_at(v: &Vec<char>, i: usize, lit: &Vec<char>) -> (r: bool)
    ensures
        r == matches_at(v@, i as int, lit@),
{
    if i > v.len() || v.len() - i < lit.len() {
        return false;
    }
    let mut k: usize = 0;
    while k < lit.len()
        invariant
            k <= lit@.len(),
            i + lit@.len() <= v@.len(),
            v@.len() == v.len(),
            forall|t: int| 0 <= t < k ==> v@[i + t] == lit@[t],
        decreases lit@.len() - k,
    {
        if v[i + k] != lit[k] {
            proof {
                if matches_at(v@, i as int, lit@) {
                    assert(v@.subrange(i as int, i + lit@.len())[k as int] == lit@[k as int]);
                }
            }
            return false;
        }
        k = k + 1;
    }
    proof {
        assert(v@.subrange(i as int, i + lit@.len()) =~= lit@);
    }
    true
}


/// First position at or after `i` holding `c`, if any.
pub(crate) fn find_char_exec(v: &Vec<char>, i: usize, c: char) -> (r: Option<usize>)
    requires
        i <= v@.len(),
    ensures
        match r {
            Some(j) => find_char(v@, i as int, c) == Some(j as int) && i <= j < v@.len(),
            None => find_char(v@, i as int, c) is None,
        },
{
    let mut k: usize = i;
    while k < v.len()
        invariant
            i <= k <= v@.len(),
            find_char(v@, i as int, c) == find_char(v@, k as int, c),
        decreases v@.len() - k,
    {
        if v[k] == c {
            return Some(k);
        }
        k = k + 1;
    }
    None
}


/// Whether the character at `k` is a decimal digit.
pub(crate) fn at_digit(v: &Vec<char>, k: usize) -> (r: bool)
    requires
        k < v@.len(),
    ensures
        r == is_dec_digit(v@[k as int]),
{
    let x = v[k] as u32;
    48 <= x && x <= 57
}

/// Reads the digit run starting at `i`: where it ends, and its value when
/// that value fits in thirty-two bits.
pub(crate) fn scan_u32(v: &Vec<char>, i: usize) -> (r: (Option<u32>, usize))
    requires
        i <= v@.len(),
    ensures
        r.1 == digit_end(v@, i as int),
        i <= r.1 <= v@.len(),
        match r.0 {
            Some(val) => digits_val(v@, i as int, r.1 as int) == val,
            None => digits_val(v@, i as int, r.1 as int) > u32::MAX,
        },
{
    let mut k: usize = i;
    let mut acc: u32 = 0;
    let mut overflowed = false;
    while k < v.len() && at_digit(v, k)
        invariant
            i <= k <= v@.len(),
            digit_end(v@, i as int) == digit_end(v@, k as int),
            !overflowed ==> acc == digits_val(v@, i as int, k as int),
            overflowed ==> digits_val(v@, i as int, k as int) > u32::MAX,
        decreases v@.len() - k,
    {
        let d: u32 = v[k] as u32 - 48;
        proof {
            assert(is_dec_digit(v@[k as int]));
            assert(digit_val(v@[k as int]) == d);
            assert(digits_val(v@, i as int, k as int + 1) == digits_val(v@, i as int, k as int)
                * 10 + d);
            if overflowed {
                lemma_digits_val_grows(v@, i as int, k as int, k as int + 1);
            }
        }
        if !overflowed {
            if acc <= (u32::MAX - d) / 10 {
                acc = acc * 10 + d;
            } else {
                proof {
                    assert(digits_val(v@, i as int, k as int + 1) > u32::MAX) by (nonlinear_arith)
                        requires
                            digits_val(v@, i as int, k as int + 1) == acc * 10 + d,
                            acc > (u32::MAX - d) / 10,
                            d < 10,
                    ;
                }
                overflowed = true;
            }
        }
        k = k + 1;
    }
    proof {
        if k < v@.len() {
            assert(!is_dec_digit(v@[k as int]));
        }
        assert(digit_end(v@, k as int) == k);
    }
    if overflowed {
        (None, k)
    } else {
        (Some(acc), k)
    }
}

} // verus!
