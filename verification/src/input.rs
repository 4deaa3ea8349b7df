//! Sanitizers for user-entered numeric text.
//!
//! Each one trims a string in place to its longest prefix that reads as a
//! number: [`verify_signed_float_input`] keeps an optional minus sign, an
//! integer part, an optional decimal point and a fractional part, all of
//! which may be empty; [`verify_positive_integer_input`] keeps a digit run
//! that starts with a nonzero digit, or empties the string.

use vstd::prelude::*;

verus! {

/// An ASCII decimal digit.
pub open spec fn is_ascii_digit(c: char) -> bool {
    '0' <= c && c <= '9'
}

/// Executable form of [`is_ascii_digit`].
pub fn is_ascii_digit_exec(c: char) -> (r: bool)
    ensures
        r == is_ascii_digit(c),
{
    '0' <= c && c <= '9'
}

/// The index just past the run of digits that starts at `from`.
pub open spec fn digit_run_end(s: Seq<char>, from: int) -> int
    decreases s.len() - from when 0 <= from <= s.len()
{
    if from < s.len() && is_ascii_digit(s[from]) {
        digit_run_end(s, from + 1)
    } else {
        from
    }
}

/// The end of a digit run lies between its start and the end of the string.
pub proof fn lemma_digit_run_end_bounds(s: Seq<char>, from: int)
    requires
        0 <= from <= s.len(),
    ensures
        from <= digit_run_end(s, from) <= s.len(),
    decreases s.len() - from,
{
    if from < s.len() && is_ascii_digit(s[from]) {
        lemma_digit_run_end_bounds(s, from + 1);
    }
}

/// The index just past the optional leading minus sign.
pub open spec fn sign_end(s: Seq<char>) -> int {
    if s.len() > 0 && s[0] == '-' {
        1
    } else {
        0
    }
}

/// The index just past the longest prefix of the shape
/// minus sign, digits, decimal point, digits, each part optional.
pub open spec fn signed_float_prefix_end(s: Seq<char>) -> int {
    let after_int = digit_run_end(s, sign_end(s));
    let after_dot = if after_int < s.len() && s[after_int] == '.' {
        after_int + 1
    } else {
        after_int
    };
    digit_run_end(s, after_dot)
}

/// The longest prefix of `s` that reads as an optionally signed decimal
/// number, each of whose four parts may be empty.
pub open spec fn signed_float_prefix(s: Seq<char>) -> Seq<char> {
    s.subrange(0, signed_float_prefix_end(s))
}

/// The longest prefix of `s` that reads as a positive integer: a digit run
/// whose first digit is nonzero.  Empty when `s` starts with anything else.
pub open spec fn positive_integer_prefix(s: Seq<char>) -> Seq<char> {
    if s.len() > 0 && '1' <= s[0] && s[0] <= '9' {
        s.subrange(0, digit_run_end(s, 0))
    } else {
        Seq::empty()
    }
}

/// Every character inside a digit run is a digit.
pub proof fn lemma_digit_run_all_digits(s: Seq<char>, from: int, k: int)
    requires
        0 <= from <= s.len(),
        from <= k < digit_run_end(s, from),
    ensures
        is_ascii_digit(s[k]),
    decreases k - from,
{
    if from < s.len() && is_ascii_digit(s[from]) {
        if k > from {
            lemma_digit_run_all_digits(s, from + 1, k);
        }
    }
}

/// A digit run ends at the end of the string or just before a non-digit.
pub proof fn lemma_digit_run_stops(s: Seq<char>, from: int)
    requires
        0 <= from <= s.len(),
    ensures
        digit_run_end(s, from) == s.len() || !is_ascii_digit(s[digit_run_end(s, from)]),
    decreases s.len() - from,
{
    if from < s.len() && is_ascii_digit(s[from]) {
        lemma_digit_run_stops(s, from + 1);
    }
}

/// An interval of digits bounded by the string's end or a non-digit is
/// exactly the digit run.
pub proof fn lemma_digit_run_complete(s: Seq<char>, from: int, j: int)
    requires
        0 <= from <= j <= s.len(),
        forall|k: int| from <= k < j ==> is_ascii_digit(s[k]),
        j == s.len() || !is_ascii_digit(s[j]),
    ensures
        digit_run_end(s, from) == j,
    decreases j - from,
{
    if from < j {
        assert(is_ascii_digit(s[from]));
        lemma_digit_run_complete(s, from + 1, j);
    }
}

/// Sanitizing is idempotent: what one pass keeps, a second pass keeps
/// whole, so no pass after the first changes anything.
pub proof fn lemma_signed_float_prefix_idempotent(s: Seq<char>)
    ensures
        signed_float_prefix(signed_float_prefix(s)) == signed_float_prefix(s),
{
    let i0 = sign_end(s);
    let d1 = digit_run_end(s, i0);
    lemma_digit_run_end_bounds(s, i0);
    let dotted = d1 < s.len() && s[d1] == '.';
    let dd = if dotted {
        d1 + 1
    } else {
        d1
    };
    let e = digit_run_end(s, dd);
    lemma_digit_run_end_bounds(s, dd);
    lemma_digit_run_stops(s, i0);
    let t = signed_float_prefix(s);
    assert(t.len() == e);
    assert(sign_end(t) == i0);
    assert forall|k: int| i0 <= k < d1 implies is_ascii_digit(t[k]) by {
        lemma_digit_run_all_digits(s, i0, k);
    }
    if dotted {
        lemma_digit_run_complete(t, i0, d1);
        assert forall|k: int| d1 + 1 <= k < e implies is_ascii_digit(t[k]) by {
            lemma_digit_run_all_digits(s, dd, k);
        }
        lemma_digit_run_complete(t, d1 + 1, e);
        assert(signed_float_prefix_end(t) == t.len());
    } else {
        assert(e == d1);
        lemma_digit_run_complete(t, i0, e);
        assert(signed_float_prefix_end(t) == t.len());
    }
    assert(signed_float_prefix(t) =~= t);
}

/// Sanitizing is idempotent: a kept positive integer is kept whole by a
/// second pass, and an emptied string stays empty.
pub proof fn lemma_positive_integer_prefix_idempotent(s: Seq<char>)
    ensures
        positive_integer_prefix(positive_integer_prefix(s)) == positive_integer_prefix(s),
{
    let t = positive_integer_prefix(s);
    if s.len() > 0 && '1' <= s[0] && s[0] <= '9' {
        let e = digit_run_end(s, 0);
        assert(is_ascii_digit(s[0]));
        lemma_digit_run_end_bounds(s, 1);
        assert(e >= 1);
        assert(t.len() == e);
        assert forall|k: int| 0 <= k < e implies is_ascii_digit(t[k]) by {
            lemma_digit_run_all_digits(s, 0, k);
        }
        lemma_digit_run_complete(t, 0, e);
        assert(positive_integer_prefix(t) =~= t);
    } else {
        assert(positive_integer_prefix(t) =~= t);
    }
}

/// Scans the maximal digit run of `s` that starts at `from`.
fn scan_digits(s: &str, from: usize) -> (end: usize)
    requires
        from <= s@.len(),
    ensures
        end as int == digit_run_end(s@, from as int),
        from <= end <= s@.len(),
{
    let n: usize = s.unicode_len();
    let mut i: usize = from;
    while i < n && is_ascii_digit_exec(s.get_char(i))
        invariant
            from <= i <= n,
            n == s@.len(),
            digit_run_end(s@, i as int) == digit_run_end(s@, from as int),
        decreases n - i,
    {
        i += 1;
    }
    proof {
        lemma_digit_run_end_bounds(s@, from as int);
    }
    i
}

/// Trims `s` in place to its longest prefix of the shape minus sign,
/// digits, decimal point, digits, each part optional.  Text that starts
/// with anything else becomes the empty string.
pub fn verify_signed_float_input(s: &mut String)
    ensures
        final(s)@ == signed_float_prefix(old(s)@),
{
    let mut cut: usize = 0;
    if s.as_str().unicode_len() > 0 && s.as_str().get_char(0) == '-' {
        cut = 1;
    }
    cut = scan_digits(s.as_str(), cut);
    if cut < s.as_str().unicode_len() && s.as_str().get_char(cut) == '.' {
        cut = cut + 1;
    }
    cut = scan_digits(s.as_str(), cut);
    let trimmed = String::from_str(s.as_str().substring_char(0, cut));
    *s = trimmed;
}

/// Trims `s` in place to its longest prefix that reads as a positive
/// integer.  Text that does not start with a nonzero digit becomes the
/// empty string.
pub fn verify_positive_integer_input(s: &mut String)
    ensures
        final(s)@ == positive_integer_prefix(old(s)@),
{
    let starts_nonzero = s.as_str().unicode_len() > 0 && {
        let c = s.as_str().get_char(0);
        '1' <= c && c <= '9'
    };
    if starts_nonzero {
        let cut = scan_digits(s.as_str(), 0);
        let trimmed = String::from_str(s.as_str().substring_char(0, cut));
        *s = trimmed;
    } else {
        *s = String::new();
    }
}

} // verus!
