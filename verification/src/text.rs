//! Text utilities for the request boundary: string equality, decimal
//! parsing of a timestamp, and decimal formatting of one.
//!
//! Parsing follows the standard library's conventions for signed integers:
//! an optional leading `+` or `-`, then one or more ASCII digits, and the
//! value must fit the target type; anything else is rejected.

use vstd::prelude::*;
use vstd::string::StrSliceExecFns;

verus! {

pub assume_specification[ String::push ](s: &mut String, c: char)
    ensures
        final(s)@ == old(s)@.push(c),
;

/// Whether `c` is an ASCII decimal digit.
pub open spec fn spec_is_digit(c: char) -> bool {
    48 <= c as int && c as int <= 57
}

/// The numeric value of an ASCII digit.
pub open spec fn spec_digit_val(c: char) -> int {
    c as int - 48
}

/// The ASCII digit for a value in `[0, 9]`.
pub open spec fn spec_digit_char(d: int) -> char {
    ((48 + d) as u8) as char
}

/// Whether every character of `s` is an ASCII decimal digit.
pub open spec fn spec_all_digits(s: Seq<char>) -> bool {
    forall|i: int| 0 <= i < s.len() ==> spec_is_digit(s[i])
}

/// The value of a sequence of ASCII digits read in base ten.
pub open spec fn spec_digits_val(s: Seq<char>) -> int
    decreases s.len(),
{
    if s.len() == 0 {
        0
    } else {
        10 * spec_digits_val(s.drop_last()) + spec_digit_val(s.last())
    }
}

/// The digits of `v` in base ten, most significant first, without sign.
pub open spec fn spec_udec(v: int) -> Seq<char>
    decreases v,
{
    if v < 10 {
        seq![spec_digit_char(v)]
    } else {
        spec_udec(v / 10) + seq![spec_digit_char(v % 10)]
    }
}

/// The decimal rendering of `n`: a minus sign for a negative value, then
/// its digits without leading zeros.
pub open spec fn spec_decimal(n: int) -> Seq<char> {
    if n < 0 {
        seq!['-'] + spec_udec(-n)
    } else {
        spec_udec(n)
    }
}

/// The result of parsing `s` as a signed 64-bit decimal integer: an
/// optional single leading sign, then one or more digits, and the value
/// must be in range; `None` otherwise.
pub open spec fn spec_parse_i64(s: Seq<char>) -> Option<i64> {
    let neg = s.len() > 0 && s[0] == '-';
    let digits = if s.len() > 0 && (s[0] == '-' || s[0] == '+') {
        s.drop_first()
    } else {
        s
    };
    if digits.len() == 0 || !spec_all_digits(digits) {
        None
    } else {
        let v = if neg {
            -spec_digits_val(digits)
        } else {
            spec_digits_val(digits)
        };
        if i64::MIN <= v && v <= i64::MAX {
            Some(v as i64)
        } else {
            None
        }
    }
}

/// A digit sequence's value never falls below zero.
proof fn lemma_digits_val_nonneg(s: Seq<char>)
    requires
        spec_all_digits(s),
    ensures
        spec_digits_val(s) >= 0,
    decreases s.len(),
{
    if s.len() > 0 {
        assert(spec_all_digits(s.drop_last()));
        lemma_digits_val_nonneg(s.drop_last());
    }
}

/// Reading further digits never decreases the value.
proof fn lemma_digits_val_take_grows(s: Seq<char>, i: int)
    requires
        spec_all_digits(s),
        0 <= i <= s.len(),
    ensures
        spec_digits_val(s) >= spec_digits_val(s.take(i)),
    decreases s.len() - i,
{
    if i < s.len() {
        assert(s.take(i + 1).drop_last() =~= s.take(i));
        assert(s.take(i + 1).last() == s[i]);
        assert(spec_all_digits(s.take(i)));
        lemma_digits_val_nonneg(s.take(i));
        lemma_digits_val_take_grows(s, i + 1);
    } else {
        assert(s.take(i) =~= s);
    }
}

/// Compares two strings character by character.
pub fn str_eq(a: &str, b: &str) -> (r: bool)
    ensures
        r == (a@ == b@),
{
    let la = a.unicode_len();
    let lb = b.unicode_len();
    if la != lb {
        return false;
    }
    let mut i: usize = 0;
    while i < la
        invariant
            i <= la,
            la == a@.len(),
            la == b@.len(),
            forall|j: int| 0 <= j < i ==> a@[j] == b@[j],
        decreases la - i,
    {
        if a.get_char(i) != b.get_char(i) {
            return false;
        }
        i = i + 1;
    }
    proof {
        assert(a@ =~= b@);
    }
    true
}

/// Parses `s` as a signed 64-bit decimal integer, accepting exactly what
/// the standard library's integer parsing accepts: an optional single sign
/// followed by one or more ASCII digits, with the value in range.
pub fn parse_i64(s: &str) -> (r: Option<i64>)
    ensures
        r == spec_parse_i64(s@),
{
    let len = s.unicode_len();
    if len == 0 {
        return None;
    }
    let first = s.get_char(0);
    let neg = first == '-';
    let start: usize = if first == '-' || first == '+' {
        1
    } else {
        0
    };
    let ghost digits = if start == 1 {
        s@.drop_first()
    } else {
        s@
    };
    if len == start {
        return None;
    }
    let bound: u64 = if neg {
        9223372036854775808
    } else {
        9223372036854775807
    };
    let mut acc: u64 = 0;
    let mut i: usize = start;
    while i < len
        invariant
            start <= i <= len,
            len == s@.len(),
            start == 1 ==> digits == s@.drop_first(),
            start == 0 ==> digits == s@,
            digits.len() == len - start,
            forall|j: int| 0 <= j < digits.len() ==> digits[j] == s@[j + start],
            spec_all_digits(digits.take(i - start)),
            acc as int == spec_digits_val(digits.take(i - start)),
            acc <= bound,
            9223372036854775807 <= bound <= 9223372036854775808,
            start <= 1,
            (start == 1) <==> (s@[0] == '-' || s@[0] == '+'),
            neg <==> s@[0] == '-',
            neg ==> bound == 9223372036854775808,
            !neg ==> bound == 9223372036854775807,
        decreases len - i,
    {
        let c = s.get_char(i);
        if c < '0' || c > '9' {
            proof {
                assert(digits[i - start] == c);
                assert(!spec_all_digits(digits));
            }
            return None;
        }
        let d: u64 = (c as u32 - 48) as u64;
        proof {
            assert(digits.take(i + 1 - start).drop_last() =~= digits.take(i - start));
            assert(digits.take(i + 1 - start).last() == digits[i - start]);
            assert(digits[i - start] == s@[i as int]);
        }
        if acc > (bound - d) / 10 {
            proof {
                lemma_digits_val_nonneg(digits.take(i - start));
                assert(10 * (acc as int) + d as int > bound as int);
                if spec_all_digits(digits) {
                    lemma_digits_val_take_grows(digits, i + 1 - start);
                    assert(spec_digits_val(digits) > bound as int);
                }
            }
            return None;
        }
        acc = acc * 10 + d;
        i = i + 1;
    }
    proof {
        assert(digits.take(len - start) =~= digits);
    }
    if neg {
        if acc == 9223372036854775808 {
            Some(i64::MIN)
        } else {
            Some(-(acc as i64))
        }
    } else {
        Some(acc as i64)
    }
}

/// Appends the base-ten digits of `v` to `s`, most significant first.
fn push_udec(s: &mut String, v: u64)
    ensures
        final(s)@ == old(s)@ + spec_udec(v as int),
    decreases v,
{
    if v >= 10 {
        push_udec(s, v / 10);
    }
    let d: u8 = (v % 10) as u8;
    s.push((48 + d) as char);
    proof {
        if v < 10 {
            assert(old(s)@.push(spec_digit_char(v as int)) =~= old(s)@ + spec_udec(v as int));
        } else {
            assert((old(s)@ + spec_udec(v as int / 10)).push(spec_digit_char(v as int % 10))
                =~= old(s)@ + spec_udec(v as int));
        }
    }
}

/// Renders `n` in decimal, with a leading minus sign when it is negative.
pub fn decimal_string(n: i64) -> (r: String)
    ensures
        r@ == spec_decimal(n as int),
{
    let mut s = String::new();
    if n >= 0 {
        push_udec(&mut s, n as u64);
        proof {
            assert(Seq::<char>::empty() + spec_udec(n as int) =~= spec_udec(n as int));
        }
    } else {
        s.push('-');
        let m: u64 = if n == i64::MIN {
            9223372036854775808
        } else {
            (-n) as u64
        };
        push_udec(&mut s, m);
        proof {
            assert(Seq::<char>::empty().push('-') + spec_udec(m as int) =~= seq!['-'] + spec_udec(
                -(n as int),
            ));
        }
    }
    s
}

} // verus!
