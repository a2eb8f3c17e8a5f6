//! Decimal integer parsing with the grammar of Rust's signed integer `FromStr`:
//! an optional `+` or `-`, then one or more ASCII digits, nothing else.
use vstd::prelude::*;
use vstd::string::StrSliceExecFns;

verus! {

pub open spec fn is_digit(c: char) -> bool {
    '0' <= c && c <= '9'
}

pub open spec fn digit_value(c: char) -> int {
    c as int - '0' as int
}

/// Non-empty and made of ASCII digits only.
pub open spec fn all_digits(s: Seq<char>) -> bool {
    s.len() > 0 && forall|i: int| 0 <= i < s.len() ==> is_digit(#[trigger] s[i])
}

/// The number that a run of digits writes in base ten.
pub open spec fn digits_value(s: Seq<char>) -> int
    decreases s.len(),
{
    if s.len() == 0 {
        0
    } else {
        10 * digits_value(s.drop_last()) + digit_value(s.last())
    }
}

/// The integer that `s` writes, if it is a well-formed signed decimal.
pub open spec fn decimal_value(s: Seq<char>) -> Option<int> {
    if s.len() > 0 && s[0] == '-' && all_digits(s.drop_first()) {
        Some(-digits_value(s.drop_first()))
    } else if s.len() > 0 && s[0] == '+' && all_digits(s.drop_first()) {
        Some(digits_value(s.drop_first()))
    } else if all_digits(s) {
        Some(digits_value(s))
    } else {
        None
    }
}

/// The value of `s` when it is a well-formed decimal within `[lo, hi]`.
pub open spec fn decimal_in_range(s: Seq<char>, lo: int, hi: int) -> Option<int> {
    match decimal_value(s) {
        Some(v) => if lo <= v && v <= hi {
            Some(v)
        } else {
            None
        },
        None => None,
    }
}

proof fn lemma_digits_value_nonneg(s: Seq<char>)
    requires
        forall|i: int| 0 <= i < s.len() ==> is_digit(#[trigger] s[i]),
    ensures
        digits_value(s) >= 0,
    decreases s.len(),
{
    if s.len() > 0 {
        lemma_digits_value_nonneg(s.drop_last());
        assert(is_digit(s[s.len() - 1]));
    }
}

/// A longer run of digits never writes a smaller number.
proof fn lemma_digits_value_grows(s: Seq<char>, k: int)
    requires
        0 <= k <= s.len(),
        forall|i: int| 0 <= i < s.len() ==> is_digit(#[trigger] s[i]),
    ensures
        digits_value(s.subrange(0, k)) <= digits_value(s),
    decreases s.len(),
{
    if k < s.len() {
        let t = s.drop_last();
        assert(t.subrange(0, k) =~= s.subrange(0, k));
        lemma_digits_value_grows(t, k);
        lemma_digits_value_nonneg(t);
        assert(is_digit(s[s.len() - 1]));
    } else {
        assert(s.subrange(0, k) =~= s);
    }
}

/// Parses `s` as a signed decimal and keeps it only within `[lo, hi]`.
pub fn parse_decimal_in_range(s: &str, lo: i64, hi: i64) -> (r: Option<i64>)
    requires
        lo <= 0 <= hi,
    ensures
        r matches Some(v) ==> decimal_in_range(s@, lo as int, hi as int) == Some(v as int),
        r is None ==> decimal_in_range(s@, lo as int, hi as int) is None,
{
    let n = s.unicode_len();
    if n == 0 {
        return None;
    }
    let first = s.get_char(0);
    let negative = first == '-';
    let start: usize = if first == '-' || first == '+' { 1 } else { 0 };
    if start == n {
        proof {
            assert(s@.drop_first().len() == 0);
        }
        return None;
    }
    let ghost body = s@.subrange(start as int, n as int);
    let mut acc: i128 = 0;
    let mut i: usize = start;
    while i < n
        invariant
            n == s@.len(),
            start <= i <= n,
            start < n,
            start <= 1,
            s@[0] == first,
            negative == (first == '-'),
            (start == 1) == (first == '-' || first == '+'),
            body == s@.subrange(start as int, n as int),
            forall|j: int| start <= j < i ==> is_digit(#[trigger] s@[j]),
            negative ==> acc == -digits_value(s@.subrange(start as int, i as int)),
            !negative ==> acc == digits_value(s@.subrange(start as int, i as int)),
            lo <= acc <= hi,
        decreases n - i,
    {
        let c = s.get_char(i);
        if !('0' <= c && c <= '9') {
            proof {
                assert(!is_digit(body[i - start]));
                assert(s@.drop_first() =~= s@.subrange(1, n as int));
                if start == 0 {
                    assert(body =~= s@);
                    assert(!all_digits(s@));
                } else {
                    assert(body =~= s@.drop_first());
                    assert(!is_digit(s@[0]));
                }
            }
            return None;
        }
        let d = (c as u32 - '0' as u32) as i128;
        let next = if negative { acc * 10 - d } else { acc * 10 + d };
        proof {
            let pre = s@.subrange(start as int, i as int);
            let ext = s@.subrange(start as int, i + 1);
            assert(ext.drop_last() =~= pre);
            assert(ext.last() == c);
        }
        if next < lo as i128 || next > hi as i128 {
            proof {
                let ext = s@.subrange(start as int, i + 1);
                let k = (i + 1 - start) as int;
                if all_digits(body) {
                    assert(body.subrange(0, k) =~= ext);
                    lemma_digits_value_grows(body, k);
                }
                assert(s@.drop_first() =~= s@.subrange(1, n as int));
                if start == 0 {
                    assert(body =~= s@);
                    assert(!is_digit(s@[0]) ==> !all_digits(s@));
                } else {
                    assert(body =~= s@.drop_first());
                    assert(!is_digit(s@[0]));
                }
                lemma_digits_value_nonneg(ext);
            }
            return None;
        }
        acc = next;
        i = i + 1;
    }
    proof {
        assert(body =~= s@.subrange(start as int, i as int));
        assert(s@.drop_first() =~= s@.subrange(1, n as int));
        if start == 0 {
            assert(body =~= s@);
            assert(is_digit(s@[0]));
        } else {
            assert(body =~= s@.drop_first());
            assert(!is_digit(s@[0]));
        }
    }
    Some(acc as i64)
}

/// `str::parse::<i64>`, stated: the value of `s` when it is a decimal that fits.
pub fn parse_i64(s: &str) -> (r: Option<i64>)
    ensures
        r matches Some(v) ==> decimal_in_range(s@, i64::MIN as int, i64::MAX as int) == Some(
            v as int,
        ),
        r is None ==> decimal_in_range(s@, i64::MIN as int, i64::MAX as int) is None,
{
    parse_decimal_in_range(s, i64::MIN, i64::MAX)
}

/// `str::parse::<i32>`, stated: the value of `s` when it is a decimal that fits.
pub fn parse_i32(s: &str) -> (r: Option<i32>)
    ensures
        r matches Some(v) ==> decimal_in_range(s@, i32::MIN as int, i32::MAX as int) == Some(
            v as int,
        ),
        r is None ==> decimal_in_range(s@, i32::MIN as int, i32::MAX as int) is None,
{
    match parse_decimal_in_range(s, i32::MIN as i64, i32::MAX as i64) {
        Some(v) => Some(v as i32),
        None => None,
    }
}

} // verus!
