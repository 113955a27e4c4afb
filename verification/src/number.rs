//! The decimal notation of floating-point numbers, as text.
//!
//! ```text
//! Float  ::= Sign? ( 'inf' | 'infinity' | 'nan' | Number )
//! Number ::= ( Digit+ | Digit+ '.' Digit* | Digit* '.' Digit+ ) Exp?
//! Exp    ::= 'e' Sign? Digit+
//! Sign   ::= [+-]
//! Digit  ::= [0-9]
//! ```
//!
//! Letters match in either case. This is what parsing a `str` as a float
//! accepts; no number is computed here, only the notation is recognised.

use crate::ascii::{digit, is_digit, lowered, to_lowered};
use crate::text::{chars_of, same_chars, slice_of};
use vstd::prelude::*;

verus! {

/// Index of the first character at or after `from` that is no digit;
/// `s.len()` where there is none.
pub open spec fn digits_end(s: Seq<char>, from: int) -> int
    decreases s.len() - from,
{
    if from < 0 || from >= s.len() {
        s.len() as int
    } else if !is_digit(s[from]) {
        from
    } else {
        digits_end(s, from + 1)
    }
}

/// What `digits_end` returns lies between `from` and the end, digits
/// alone stand before it, and no digit stands at it.
pub proof fn lemma_digits_end(s: Seq<char>, from: int)
    requires
        0 <= from <= s.len(),
    ensures
        from <= digits_end(s, from) <= s.len(),
        forall|j: int| from <= j < digits_end(s, from) ==> is_digit(#[trigger] s[j]),
        digits_end(s, from) < s.len() ==> !is_digit(s[digits_end(s, from)]),
    decreases s.len() - from,
{
    if from < s.len() && is_digit(s[from]) {
        lemma_digits_end(s, from + 1);
    }
}

/// The digits from `from` on end at `k` where digits alone stand in
/// between and none stands at `k`.
pub proof fn lemma_digits_end_is(s: Seq<char>, from: int, k: int)
    requires
        0 <= from <= k <= s.len(),
        forall|j: int| from <= j < k ==> is_digit(#[trigger] s[j]),
        k < s.len() ==> !is_digit(s[k]),
    ensures
        digits_end(s, from) == k,
    decreases k - from,
{
    if from < k {
        lemma_digits_end_is(s, from + 1, k);
    }
}

/// Skips the digits of `v` from `from` on.
pub fn skip_digits(v: &Vec<char>, from: usize) -> (i: usize)
    requires
        from <= v.len(),
    ensures
        i == digits_end(v@, from as int),
        from <= i <= v.len(),
{
    let mut i: usize = from;
    while i < v.len() && digit(v[i])
        invariant
            from <= i <= v.len(),
            digits_end(v@, from as int) == digits_end(v@, i as int),
        decreases v.len() - i,
    {
        i += 1;
    }
    i
}

/// Where the mantissa of `s` ends: after its leading digits, and after a
/// point with the digits behind it where a point follows them.
pub open spec fn mantissa_end(s: Seq<char>) -> int {
    let a = digits_end(s, 0);
    if a < s.len() && s[a] == '.' {
        digits_end(s, a + 1)
    } else {
        a
    }
}

/// The number of digits in the mantissa of `s`.
pub open spec fn mantissa_digits(s: Seq<char>) -> int {
    let a = digits_end(s, 0);
    if a < s.len() && s[a] == '.' {
        mantissa_end(s) - 1
    } else {
        a
    }
}

/// `s`, from `from` on, is an exponent: `e` or `E`, an optional sign, and
/// at least one digit up to the end.
pub open spec fn is_exponent(s: Seq<char>, from: int) -> bool {
    &&& 0 <= from < s.len()
    &&& (s[from] == 'e' || s[from] == 'E')
    &&& {
        let d = if from + 1 < s.len() && (s[from + 1] == '+' || s[from + 1] == '-') {
            from + 2
        } else {
            from + 1
        };
        d < s.len() && digits_end(s, d) == s.len()
    }
}

/// `s` is a `Number`: a mantissa with at least one digit, then nothing or an
/// exponent.
pub open spec fn is_number(s: Seq<char>) -> bool {
    mantissa_digits(s) > 0 && (mantissa_end(s) == s.len() || is_exponent(s, mantissa_end(s)))
}

/// `s` names infinity or not-a-number.
pub open spec fn is_special(s: Seq<char>) -> bool {
    lowered(s) == "inf"@ || lowered(s) == "infinity"@ || lowered(s) == "nan"@
}

/// `s` without the sign that it may begin with.
pub open spec fn unsigned(s: Seq<char>) -> Seq<char> {
    if s.len() > 0 && (s[0] == '+' || s[0] == '-') {
        s.skip(1)
    } else {
        s
    }
}

/// `s` is a `Float`.
pub open spec fn is_float(s: Seq<char>) -> bool {
    is_special(unsigned(s)) || is_number(unsigned(s))
}

/// Recognises a `Number`.
pub fn number(v: &Vec<char>) -> (b: bool)
    ensures
        b == is_number(v@),
{
    let a = skip_digits(v, 0);
    let mut end: usize = a;
    let mut count: usize = a;
    if a < v.len() && v[a] == '.' {
        end = skip_digits(v, a + 1);
        count = end - 1;
    }
    if count == 0 {
        return false;
    }
    if end == v.len() {
        return true;
    }
    if v[end] != 'e' && v[end] != 'E' {
        return false;
    }
    let mut d: usize = end + 1;
    if d < v.len() && (v[d] == '+' || v[d] == '-') {
        d += 1;
    }
    if d >= v.len() {
        return false;
    }
    skip_digits(v, d) == v.len()
}

/// Recognises a `Float`.
pub fn float(v: &Vec<char>) -> (b: bool)
    ensures
        b == is_float(v@),
{
    let body = if v.len() > 0 && (v[0] == '+' || v[0] == '-') {
        slice_of(v, 1, v.len())
    } else {
        slice_of(v, 0, v.len())
    };
    assert(body@ == unsigned(v@));
    let low = to_lowered(&body);
    if same_chars(&low, &chars_of("inf")) || same_chars(&low, &chars_of("infinity"))
        || same_chars(&low, &chars_of("nan")) {
        return true;
    }
    number(&body)
}

/// Every character of `s` is a digit.
pub open spec fn all_digits(s: Seq<char>) -> bool {
    forall|i: int| 0 <= i < s.len() ==> is_digit(#[trigger] s[i])
}

/// `s` is written as the grammar writes an `Exp`: the letter, a sign or
/// none, and digits, at least one.
pub open spec fn written_as_exponent(s: Seq<char>, sign: Seq<char>, digits: Seq<char>) -> bool {
    &&& s.len() > 0
    &&& (s[0] == 'e' || s[0] == 'E')
    &&& s == seq![s[0]] + sign + digits
    &&& (sign.len() == 0 || (sign.len() == 1 && (sign[0] == '+' || sign[0] == '-')))
    &&& digits.len() > 0
    &&& all_digits(digits)
}

/// `s` is written as the grammar writes a `Number`: digits, a point or
/// none, digits behind a point, at least one digit in all, and an `Exp` or
/// none.
pub open spec fn written_as_number(
    s: Seq<char>,
    whole: Seq<char>,
    point: bool,
    fraction: Seq<char>,
    exponent: Seq<char>,
) -> bool {
    &&& s == whole + (if point {
        seq!['.']
    } else {
        Seq::empty()
    }) + fraction + exponent
    &&& all_digits(whole)
    &&& all_digits(fraction)
    &&& (!point ==> fraction.len() == 0)
    &&& whole.len() + fraction.len() > 0
    &&& (exponent.len() == 0 || exists|sign: Seq<char>, digits: Seq<char>|
        written_as_exponent(exponent, sign, digits))
}

/// What the grammar writes as a `Number` is recognised as one.
pub proof fn lemma_written_number_is_recognised(
    s: Seq<char>,
    whole: Seq<char>,
    point: bool,
    fraction: Seq<char>,
    exponent: Seq<char>,
)
    requires
        written_as_number(s, whole, point, fraction, exponent),
    ensures
        is_number(s),
{
    let a = whole.len() as int;
    let dot: Seq<char> = if point {
        seq!['.']
    } else {
        Seq::empty()
    };
    let m = a + dot.len() + fraction.len();
    assert forall|j: int| 0 <= j < a implies is_digit(#[trigger] s[j]) by {
        assert(s[j] == whole[j]);
    }
    if exponent.len() > 0 {
        let (sign, digits) = choose|sign: Seq<char>, digits: Seq<char>|
            written_as_exponent(exponent, sign, digits);
        assert(s[m] == exponent[0]);
        let d = m + 1 + sign.len();
        assert(exponent.len() == 1 + sign.len() + digits.len());
        assert forall|j: int| d <= j < s.len() implies is_digit(#[trigger] s[j]) by {
            assert(s[j] == exponent[j - m]);
            assert(exponent[j - m] == digits[j - d]);
        }
        lemma_digits_end_is(s, d, s.len() as int);
        if sign.len() == 1 {
            assert(s[m + 1] == exponent[1]);
            assert(exponent[1] == sign[0]);
        } else {
            assert(s[m + 1] == exponent[1]);
            assert(exponent[1] == digits[0]);
        }
    }
    if point {
        assert(s[a] == '.');
        assert forall|j: int| a + 1 <= j < m implies is_digit(#[trigger] s[j]) by {
            assert(s[j] == fraction[j - a - 1]);
        }
        lemma_digits_end_is(s, 0, a);
        lemma_digits_end_is(s, a + 1, m);
    } else {
        lemma_digits_end_is(s, 0, a);
    }
}

/// What is recognised as a `Number` is written as the grammar writes one.
pub proof fn lemma_recognised_number_is_written(s: Seq<char>)
    requires
        is_number(s),
    ensures
        exists|whole: Seq<char>, point: bool, fraction: Seq<char>, exponent: Seq<char>|
            written_as_number(s, whole, point, fraction, exponent),
{
    lemma_digits_end(s, 0);
    let a = digits_end(s, 0);
    let point = a < s.len() && s[a] == '.';
    if point {
        lemma_digits_end(s, a + 1);
    }
    let m = mantissa_end(s);
    let whole = s.take(a);
    let fraction = if point {
        s.subrange(a + 1, m)
    } else {
        Seq::empty()
    };
    let exponent = s.skip(m);
    let dot: Seq<char> = if point {
        seq!['.']
    } else {
        Seq::empty()
    };
    assert(s =~= whole + dot + fraction + exponent);
    if exponent.len() > 0 {
        let signed = m + 1 < s.len() && (s[m + 1] == '+' || s[m + 1] == '-');
        let d = if signed {
            m + 2
        } else {
            m + 1
        };
        lemma_digits_end(s, d);
        let sign = s.subrange(m + 1, d);
        let digits = s.skip(d);
        assert(exponent =~= seq![exponent[0]] + sign + digits);
        assert(written_as_exponent(exponent, sign, digits));
    }
    assert(written_as_number(s, whole, point, fraction, exponent));
}

} // verus!
