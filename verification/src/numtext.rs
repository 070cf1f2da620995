//! Which texts denote a number.
//!
//! An integer cast accepts a quoted string exactly when the string is valid
//! numeric text: an optional sign, then either a special word (`inf`,
//! `infinity`, `nan`, in any letter case) or a decimal number — digits with
//! at most one point and at least one digit, then an optional exponent part
//! (`e` or `E`, an optional sign, and at least one digit). This is the
//! grammar the front end's numeric parser accepts, so a string the evaluator
//! lets through always executes to a number.

use vstd::prelude::*;
use vstd::string::StrSliceExecFns;

verus! {

/// A decimal digit.
pub open spec fn is_digit(c: char) -> bool {
    '0' <= c && c <= '9'
}

/// Every character of `s` is a decimal digit.
pub open spec fn all_digits(s: Seq<char>) -> bool {
    forall|i: int| 0 <= i < s.len() ==> is_digit(#[trigger] s[i])
}

/// One or more decimal digits.
pub open spec fn is_count(s: Seq<char>) -> bool {
    s.len() > 0 && all_digits(s)
}

/// Digits with at most one decimal point and at least one digit.
pub open spec fn is_mantissa(s: Seq<char>) -> bool {
    is_count(s) || exists|p: int|
        #![auto]
        0 <= p < s.len() && s[p] == '.' && all_digits(s.subrange(0, p)) && all_digits(
            s.subrange(p + 1, s.len() as int),
        ) && s.len() > 1
}

/// An optional sign followed by one or more digits.
pub open spec fn is_signed_count(s: Seq<char>) -> bool {
    if s.len() > 0 && (s[0] == '+' || s[0] == '-') {
        is_count(s.subrange(1, s.len() as int))
    } else {
        is_count(s)
    }
}

/// An exponent part: `e` or `E`, then a signed digit count.
pub open spec fn is_exponent(s: Seq<char>) -> bool {
    s.len() >= 1 && (s[0] == 'e' || s[0] == 'E') && is_signed_count(
        s.subrange(1, s.len() as int),
    )
}

/// A mantissa followed by an optional exponent part.
pub open spec fn is_decimal_number(s: Seq<char>) -> bool {
    exists|k: int|
        #![auto]
        0 <= k <= s.len() && is_mantissa(s.subrange(0, k)) && (k == s.len() || is_exponent(
            s.subrange(k, s.len() as int),
        ))
}

/// The word `inf`, in any letter case.
pub open spec fn is_inf_word(s: Seq<char>) -> bool {
    s.len() == 3 && (s[0] == 'i' || s[0] == 'I') && (s[1] == 'n' || s[1] == 'N') && (s[2] == 'f'
        || s[2] == 'F')
}

/// The word `infinity`, in any letter case.
pub open spec fn is_infinity_word(s: Seq<char>) -> bool {
    s.len() == 8 && (s[0] == 'i' || s[0] == 'I') && (s[1] == 'n' || s[1] == 'N') && (s[2] == 'f'
        || s[2] == 'F') && (s[3] == 'i' || s[3] == 'I') && (s[4] == 'n' || s[4] == 'N') && (s[5]
        == 'i' || s[5] == 'I') && (s[6] == 't' || s[6] == 'T') && (s[7] == 'y' || s[7] == 'Y')
}

/// The word `nan`, in any letter case.
pub open spec fn is_nan_word(s: Seq<char>) -> bool {
    s.len() == 3 && (s[0] == 'n' || s[0] == 'N') && (s[1] == 'a' || s[1] == 'A') && (s[2] == 'n'
        || s[2] == 'N')
}

/// One of the three special number words.
pub open spec fn is_special_word(s: Seq<char>) -> bool {
    is_inf_word(s) || is_infinity_word(s) || is_nan_word(s)
}

/// Valid numeric text: an optional sign, then a special word or a decimal
/// number.
pub open spec fn spec_is_numeric_text(s: Seq<char>) -> bool {
    let skip: int = if s.len() > 0 && (s[0] == '+' || s[0] == '-') {
        1
    } else {
        0
    };
    let t = s.subrange(skip, s.len() as int);
    is_special_word(t) || is_decimal_number(t)
}

/// A mantissa holds only digits and one point, so a character that is
/// neither rules it out.
proof fn lemma_mantissa_needs_digit_or_point(m: Seq<char>, j: int)
    requires
        0 <= j < m.len(),
        m[j] != '.',
        !is_digit(m[j]),
    ensures
        !is_mantissa(m),
{
    assert(!is_count(m));
    assert forall|p: int|
        0 <= p < m.len() && m[p] == '.' && all_digits(m.subrange(0, p)) && all_digits(
            m.subrange(p + 1, m.len() as int),
        ) implies false by {
        if j < p {
            assert(m.subrange(0, p)[j] == m[j]);
        } else if j > p {
            assert(m.subrange(p + 1, m.len() as int)[j - p - 1] == m[j]);
        }
    }
}

/// A mantissa holds at most one point.
proof fn lemma_mantissa_one_point(m: Seq<char>, j1: int, j2: int)
    requires
        0 <= j1 < j2 < m.len(),
        m[j1] == '.',
        m[j2] == '.',
    ensures
        !is_mantissa(m),
{
    assert(!is_digit('.'));
    assert(!is_count(m));
    assert forall|p: int|
        0 <= p < m.len() && m[p] == '.' && all_digits(m.subrange(0, p)) && all_digits(
            m.subrange(p + 1, m.len() as int),
        ) implies false by {
        let j = if p == j1 {
            j2
        } else {
            j1
        };
        if j < p {
            assert(m.subrange(0, p)[j] == m[j]);
        } else {
            assert(m.subrange(p + 1, m.len() as int)[j - p - 1] == m[j]);
        }
    }
}

/// Scan `[from, to)` of `s` for decimal digits only.
fn scan_digits(s: &str, from: usize, to: usize) -> (b: bool)
    requires
        from <= to <= s@.len(),
    ensures
        b == all_digits(s@.subrange(from as int, to as int)),
{
    let ghost sub = s@.subrange(from as int, to as int);
    let mut i: usize = from;
    while i < to
        invariant
            from <= i <= to <= s@.len(),
            sub == s@.subrange(from as int, to as int),
            forall|j: int| from <= j < i ==> is_digit(#[trigger] s@[j]),
        decreases to - i,
    {
        let c = s.get_char(i);
        if !(c >= '0' && c <= '9') {
            assert(sub[i - from] == s@[i as int]);
            return false;
        }
        i += 1;
    }
    assert forall|j: int| 0 <= j < sub.len() implies is_digit(#[trigger] sub[j]) by {
        assert(sub[j] == s@[from + j]);
    }
    true
}

/// Find the first `e` or `E` in `[from, to)` of `s`, or `to` if none.
fn find_exp(s: &str, from: usize, to: usize) -> (k: usize)
    requires
        from <= to <= s@.len(),
    ensures
        from <= k <= to,
        forall|j: int| from <= j < k ==> s@[j] != 'e' && #[trigger] s@[j] != 'E',
        k < to ==> s@[k as int] == 'e' || s@[k as int] == 'E',
{
    let mut i: usize = from;
    while i < to
        invariant
            from <= i <= to <= s@.len(),
            forall|j: int| from <= j < i ==> s@[j] != 'e' && #[trigger] s@[j] != 'E',
        decreases to - i,
    {
        let c = s.get_char(i);
        if c == 'e' || c == 'E' {
            return i;
        }
        i += 1;
    }
    to
}

/// Scan `[from, to)` of `s` as a mantissa.
fn scan_mantissa(s: &str, from: usize, to: usize) -> (b: bool)
    requires
        from <= to <= s@.len(),
    ensures
        b == is_mantissa(s@.subrange(from as int, to as int)),
{
    let ghost sub = s@.subrange(from as int, to as int);
    let mut dot: Option<usize> = None;
    let mut i: usize = from;
    while i < to
        invariant
            from <= i <= to <= s@.len(),
            sub == s@.subrange(from as int, to as int),
            match dot {
                Some(d) => from <= d < i && s@[d as int] == '.' && forall|j: int|
                    from <= j < i && j != d ==> is_digit(#[trigger] s@[j]),
                None => forall|j: int| from <= j < i ==> is_digit(#[trigger] s@[j]),
            },
        decreases to - i,
    {
        let c = s.get_char(i);
        if c >= '0' && c <= '9' {
        } else if c == '.' {
            match dot {
                None => {
                    dot = Some(i);
                },
                Some(d) => {
                    proof {
                        assert(sub[d - from] == s@[d as int]);
                        assert(sub[i - from] == s@[i as int]);
                        lemma_mantissa_one_point(sub, d - from, i - from);
                    }
                    return false;
                },
            }
        } else {
            proof {
                assert(sub[i - from] == s@[i as int]);
                lemma_mantissa_needs_digit_or_point(sub, i - from);
            }
            return false;
        }
        i += 1;
    }
    match dot {
        None => {
            if to > from {
                assert forall|j: int| 0 <= j < sub.len() implies is_digit(#[trigger] sub[j]) by {
                    assert(sub[j] == s@[from + j]);
                }
                assert(is_count(sub));
                true
            } else {
                assert(sub.len() == 0);
                assert(!is_mantissa(sub));
                false
            }
        },
        Some(d) => {
            if to - from > 1 {
                proof {
                    let p = d - from;
                    assert(sub[p] == s@[d as int]);
                    assert forall|j: int| 0 <= j < p implies is_digit(
                        #[trigger] sub.subrange(0, p)[j],
                    ) by {
                        assert(sub.subrange(0, p)[j] == s@[from + j]);
                    }
                    assert forall|j: int| 0 <= j < sub.len() - p - 1 implies is_digit(
                        #[trigger] sub.subrange(p + 1, sub.len() as int)[j],
                    ) by {
                        assert(sub.subrange(p + 1, sub.len() as int)[j] == s@[from + p + 1 + j]);
                    }
                    assert(is_mantissa(sub));
                }
                true
            } else {
                proof {
                    assert(sub.len() == 1);
                    assert(sub[0] == s@[d as int]);
                    assert(!is_digit('.'));
                    assert(!is_count(sub));
                }
                false
            }
        },
    }
}

/// Scan `[from, to)` of `s` as an optional sign followed by digits.
fn scan_signed_count(s: &str, from: usize, to: usize) -> (b: bool)
    requires
        from <= to <= s@.len(),
    ensures
        b == is_signed_count(s@.subrange(from as int, to as int)),
{
    let ghost sub = s@.subrange(from as int, to as int);
    if from < to {
        let c = s.get_char(from);
        assert(sub[0] == s@[from as int]);
        if c == '+' || c == '-' {
            let r = scan_digits(s, from + 1, to);
            proof {
                assert(sub.subrange(1, sub.len() as int) =~= s@.subrange(
                    from + 1,
                    to as int,
                ));
            }
            r && to - from > 1
        } else {
            let r = scan_digits(s, from, to);
            r && to > from
        }
    } else {
        assert(sub.len() == 0);
        false
    }
}

/// Scan `[from, to)` of `s` as an exponent part.
fn scan_exponent(s: &str, from: usize, to: usize) -> (b: bool)
    requires
        from <= to <= s@.len(),
    ensures
        b == is_exponent(s@.subrange(from as int, to as int)),
{
    let ghost sub = s@.subrange(from as int, to as int);
    if from < to {
        let c = s.get_char(from);
        assert(sub[0] == s@[from as int]);
        if c == 'e' || c == 'E' {
            let r = scan_signed_count(s, from + 1, to);
            proof {
                assert(sub.subrange(1, sub.len() as int) =~= s@.subrange(
                    from + 1,
                    to as int,
                ));
            }
            r
        } else {
            false
        }
    } else {
        false
    }
}

/// Scan `[from, to)` of `s` as a decimal number: the split between mantissa
/// and exponent part can only lie at the first `e` or `E`.
fn scan_decimal(s: &str, from: usize, to: usize) -> (b: bool)
    requires
        from <= to <= s@.len(),
    ensures
        b == is_decimal_number(s@.subrange(from as int, to as int)),
{
    let ghost sub = s@.subrange(from as int, to as int);
    let k = find_exp(s, from, to);
    let m = scan_mantissa(s, from, k);
    proof {
        assert(sub.subrange(0, k - from) =~= s@.subrange(from as int, k as int));
    }
    let e = if k < to {
        let r = scan_exponent(s, k, to);
        proof {
            assert(sub.subrange(k - from, sub.len() as int) =~= s@.subrange(
                k as int,
                to as int,
            ));
        }
        r
    } else {
        true
    };
    if m && e {
        assert(is_decimal_number(sub)) by {
            let ke = k - from;
            assert(0 <= ke <= sub.len() && is_mantissa(sub.subrange(0, ke)) && (ke == sub.len()
                || is_exponent(sub.subrange(ke, sub.len() as int))));
        }
        true
    } else {
        assert forall|kk: int|
            0 <= kk <= sub.len() && is_mantissa(sub.subrange(0, kk)) && (kk == sub.len()
                || is_exponent(sub.subrange(kk, sub.len() as int))) implies false by {
            let ke = k - from;
            if kk > ke {
                // the mantissa would contain the first `e` or `E`
                assert(sub.subrange(0, kk)[ke] == s@[k as int]);
                assert(!is_digit('e') && !is_digit('E'));
                lemma_mantissa_needs_digit_or_point(sub.subrange(0, kk), ke);
            } else if kk < ke {
                // an exponent part would have to start before the first `e` or `E`
                assert(sub.subrange(kk, sub.len() as int)[0] == s@[from + kk]);
            } else {
                assert(sub.subrange(0, ke) == s@.subrange(from as int, k as int));
                if ke < sub.len() {
                    assert(sub.subrange(ke, sub.len() as int) == s@.subrange(
                        k as int,
                        to as int,
                    ));
                }
            }
        }
        false
    }
}

/// Check `[from, to)` of `s` against the three special number words.
fn scan_special_word(s: &str, from: usize, to: usize) -> (b: bool)
    requires
        from <= to <= s@.len(),
    ensures
        b == is_special_word(s@.subrange(from as int, to as int)),
{
    let ghost sub = s@.subrange(from as int, to as int);
    if to - from == 3 {
        let c0 = s.get_char(from);
        let c1 = s.get_char(from + 1);
        let c2 = s.get_char(from + 2);
        assert(sub[0] == s@[from as int] && sub[1] == s@[from + 1] && sub[2] == s@[from + 2]);
        ((c0 == 'i' || c0 == 'I') && (c1 == 'n' || c1 == 'N') && (c2 == 'f' || c2 == 'F')) || ((c0
            == 'n' || c0 == 'N') && (c1 == 'a' || c1 == 'A') && (c2 == 'n' || c2 == 'N'))
    } else if to - from == 8 {
        let c0 = s.get_char(from);
        let c1 = s.get_char(from + 1);
        let c2 = s.get_char(from + 2);
        let c3 = s.get_char(from + 3);
        let c4 = s.get_char(from + 4);
        let c5 = s.get_char(from + 5);
        let c6 = s.get_char(from + 6);
        let c7 = s.get_char(from + 7);
        assert(sub[0] == s@[from as int] && sub[1] == s@[from + 1] && sub[2] == s@[from + 2]
            && sub[3] == s@[from + 3] && sub[4] == s@[from + 4] && sub[5] == s@[from + 5] && sub[6]
            == s@[from + 6] && sub[7] == s@[from + 7]);
        (c0 == 'i' || c0 == 'I') && (c1 == 'n' || c1 == 'N') && (c2 == 'f' || c2 == 'F') && (c3
            == 'i' || c3 == 'I') && (c4 == 'n' || c4 == 'N') && (c5 == 'i' || c5 == 'I') && (c6
            == 't' || c6 == 'T') && (c7 == 'y' || c7 == 'Y')
    } else {
        false
    }
}

/// Decide whether `s` is valid numeric text.
pub fn is_numeric_text(s: &str) -> (b: bool)
    ensures
        b == spec_is_numeric_text(s@),
{
    let n = s.unicode_len();
    let mut start: usize = 0;
    if n > 0 {
        let c = s.get_char(0);
        if c == '+' || c == '-' {
            start = 1;
        }
    }
    let sp = scan_special_word(s, start, n);
    if sp {
        true
    } else {
        scan_decimal(s, start, n)
    }
}

} // verus!
