//! Reading decimal integers from text, with the rules of std's `FromStr`
//! for the integer types: an optional sign, then one or more ASCII digits,
//! and a value in the type's range.

use vstd::prelude::*;
use crate::util::text::chars_of;

verus! {

/// Whether `c` is an ASCII digit.
pub open spec fn is_digit(c: char) -> bool {
    '0' <= c && c <= '9'
}

/// The number an ASCII digit stands for.
pub open spec fn digit_value(c: char) -> int {
    (c as int) - ('0' as int)
}

/// Whether every character of `s` is an ASCII digit.
pub open spec fn all_digits(s: Seq<char>) -> bool {
    forall|i: int| 0 <= i < s.len() ==> is_digit(#[trigger] s[i])
}

/// The value of a string of decimal digits.
pub open spec fn digits_value(s: Seq<char>) -> int
    decreases s.len(),
{
    if s.len() == 0 {
        0
    } else {
        digits_value(s.drop_last()) * 10 + digit_value(s.last())
    }
}

/// The integer that `s` writes, if it writes one: an optional `+` or `-`,
/// then at least one digit and nothing else.
pub open spec fn parsed_integer(s: Seq<char>) -> Option<int> {
    let negative = s.len() > 0 && s[0] == '-';
    let body = if s.len() > 0 && (s[0] == '-' || s[0] == '+') {
        s.drop_first()
    } else {
        s
    };
    if body.len() > 0 && all_digits(body) {
        Some(if negative { -digits_value(body) } else { digits_value(body) })
    } else {
        None
    }
}

proof fn lemma_digits_value_nonnegative(s: Seq<char>)
    requires
        all_digits(s),
    ensures
        digits_value(s) >= 0,
    decreases s.len(),
{
    if s.len() > 0 {
        assert(is_digit(s[s.len() - 1]));
        lemma_digits_value_nonnegative(s.drop_last());
    }
}

/// A longer run of digits is worth at least as much as its prefix.
proof fn lemma_digits_value_prefix(s: Seq<char>, i: int)
    requires
        all_digits(s),
        0 <= i <= s.len(),
    ensures
        digits_value(s.take(i)) <= digits_value(s),
    decreases s.len() - i,
{
    if i < s.len() {
        let t = s.take(i + 1);
        assert(t.drop_last() =~= s.take(i));
        assert(is_digit(t[i]));
        lemma_digits_value_nonnegative(s.take(i));
        lemma_digits_value_prefix(s, i + 1);
    } else {
        assert(s.take(i) =~= s);
    }
}

/// Reads a decimal `i128` (std's `str::parse::<i128>`).
pub fn parse_i128(s: &str) -> (r: Option<i128>)
    ensures
        r == match parsed_integer(s@) {
            Some(v) => if i128::MIN <= v <= i128::MAX { Some(v as i128) } else { None },
            None => None,
        },
{
    let v = chars_of(s);
    let n = v.len();
    if n == 0 {
        return None;
    }
    let negative = v[0] == '-';
    let start: usize = if v[0] == '-' || v[0] == '+' { 1 } else { 0 };
    let ghost body = if start == 1 { s@.drop_first() } else { s@ };
    proof {
        assert(body =~= s@.subrange(start as int, n as int));
    }
    if start == n {
        return None;
    }
    let mut acc: i128 = 0;
    let mut i = start;
    while i < n
        invariant
            v@ == s@,
            n == v@.len(),
            s@.len() > 0,
            negative == (s@[0] == '-'),
            body == (if s@[0] == '-' || s@[0] == '+' { s@.drop_first() } else { s@ }),
            start <= i <= n,
            body == s@.subrange(start as int, n as int),
            all_digits(body.take(i - start)),
            acc == if negative { -digits_value(body.take(i - start)) } else { digits_value(body.take(i - start)) },
        decreases n - i,
    {
        let c = v[i];
        if c < '0' || c > '9' {
            proof {
                assert(body[i - start] == c);
                assert(!is_digit(body[i - start]));
                assert(!all_digits(body));
            }
            return None;
        }
        let d = (c as u32 - '0' as u32) as i128;
        let ghost k = (i - start) as int;
        proof {
            let t = body.take(k + 1);
            assert(t.drop_last() =~= body.take(k));
            assert(t.last() == c);
            assert(all_digits(t));
        }
        let step = acc.checked_mul(10);
        let next = match step {
            Some(m) => if negative { m.checked_sub(d) } else { m.checked_add(d) },
            None => None,
        };
        match next {
            Some(a) => {
                acc = a;
            },
            None => {
                proof {
                    let t = body.take(k + 1);
                    assert(digits_value(t) == digits_value(body.take(k)) * 10 + digit_value(c));
                    lemma_digits_value_nonnegative(body.take(k));
                    assert(0 <= digit_value(c) <= 9);
                    if all_digits(body) {
                        lemma_digits_value_prefix(body, k + 1);
                        assert(digits_value(t) <= digits_value(body));
                        if negative {
                            assert(-digits_value(body) < i128::MIN);
                        } else {
                            assert(digits_value(body) > i128::MAX);
                        }
                    }
                }
                return None;
            },
        }
        i = i + 1;
    }
    proof {
        assert(body.take(n - start) =~= body);
    }
    Some(acc)
}

/// Reads a decimal `i32` (std's `str::parse::<i32>`).
pub fn parse_i32(s: &str) -> (r: Option<i32>)
    ensures
        r == match parsed_integer(s@) {
            Some(v) => if i32::MIN <= v <= i32::MAX { Some(v as i32) } else { None },
            None => None,
        },
{
    match parse_i128(s) {
        Some(v) => if i32::MIN as i128 <= v && v <= i32::MAX as i128 { Some(v as i32) } else { None },
        None => None,
    }
}


proof fn lemma_digit_char_value(d: nat)
    requires
        d < 10,
    ensures
        is_digit(crate::util::decimal::digit_char(d)),
        digit_value(crate::util::decimal::digit_char(d)) == d,
{
}

proof fn lemma_decimal_digits_value(n: nat)
    ensures
        crate::util::decimal::decimal_digits(n).len() > 0,
        all_digits(crate::util::decimal::decimal_digits(n)),
        digits_value(crate::util::decimal::decimal_digits(n)) == n,
    decreases n,
{
    let s = crate::util::decimal::decimal_digits(n);
    if n < 10 {
        lemma_digit_char_value(n);
        assert(s.drop_last() =~= Seq::<char>::empty());
        assert(s.last() == crate::util::decimal::digit_char(n));
        assert(digits_value(s.drop_last()) == 0);
    } else {
        let t = crate::util::decimal::decimal_digits(n / 10);
        lemma_decimal_digits_value(n / 10);
        lemma_digit_char_value(n % 10);
        assert(s.drop_last() =~= t);
        vstd::arithmetic::div_mod::lemma_fundamental_div_mod(n as int, 10);
        assert(s.last() == crate::util::decimal::digit_char(n % 10));
        assert(digits_value(s) == digits_value(t) * 10 + digit_value(s.last()));
        assert forall|i: int| 0 <= i < s.len() implies is_digit(#[trigger] s[i]) by {
            if i < t.len() {
                assert(s[i] == t[i]);
            }
        }
    }
}

/// The decimal text of an integer reads back as that integer.
pub proof fn law_decimal_text_reads_back(v: int)
    ensures
        parsed_integer(crate::util::decimal::decimal_text(v)) == Some(v),
{
    let s = crate::util::decimal::decimal_text(v);
    if v < 0 {
        let d = crate::util::decimal::decimal_digits((-v) as nat);
        lemma_decimal_digits_value((-v) as nat);
        assert(s.drop_first() =~= d);
        assert(s[0] == '-');
    } else {
        let d = crate::util::decimal::decimal_digits(v as nat);
        lemma_decimal_digits_value(v as nat);
        assert(is_digit(s[0]));
    }
}

} // verus!
