//! Decimal text of signed 64-bit integers.
//!
//! A destination key that reads as the decimal text of a signed 64-bit value
//! names a numeric destination; any other key is a symbolic name. The shape
//! accepted here is the one `str::parse::<i64>` accepts: an optional single
//! `+` or `-`, then one or more ASCII digits, and a value within the signed
//! 64-bit range.
use vstd::prelude::*;

verus! {

/// Smallest value out of reach of a signed 64-bit integer: `2^63`.
pub const SIGNED_BOUND: u64 = 9223372036854775808;

/// `c` is an ASCII decimal digit (code points 48 through 57).
pub open spec fn is_dec_digit(c: char) -> bool {
    48 <= c as int && c as int <= 57
}

/// Numeric value of an ASCII decimal digit.
pub open spec fn digit_value(c: char) -> int {
    c as int - 48
}

/// Every character of `s` is an ASCII decimal digit.
pub open spec fn all_digits(s: Seq<char>) -> bool {
    forall|i: int| 0 <= i < s.len() ==> is_dec_digit(#[trigger] s[i])
}

/// Value of a digit string, most significant digit first.
pub open spec fn digits_value(s: Seq<char>) -> int
    decreases s.len(),
{
    if s.len() == 0 {
        0
    } else {
        digits_value(s.drop_last()) * 10 + digit_value(s.last())
    }
}

/// The digits of a signed decimal text: `s` with a single leading sign, if
/// any, removed.
pub open spec fn digits_of(s: Seq<char>) -> Seq<char> {
    if s.len() > 0 && (s[0] == '+' || s[0] == '-') {
        s.drop_first()
    } else {
        s
    }
}

/// The text carries a leading minus sign.
pub open spec fn is_negative_text(s: Seq<char>) -> bool {
    s.len() > 0 && s[0] == '-'
}

/// The signed value a decimal text stands for.
pub open spec fn text_value(s: Seq<char>) -> int {
    if is_negative_text(s) {
        -digits_value(digits_of(s))
    } else {
        digits_value(digits_of(s))
    }
}

/// `s` is a decimal text `str::parse::<i64>` accepts: an optional single
/// sign, at least one digit, no other characters, and a value in range.
pub open spec fn is_i64_text(s: Seq<char>) -> bool {
    &&& digits_of(s).len() > 0
    &&& all_digits(digits_of(s))
    &&& i64::MIN <= text_value(s) <= i64::MAX
}

/// A digit string never stands for a negative value.
proof fn lemma_digits_value_nonneg(s: Seq<char>)
    requires
        all_digits(s),
    ensures
        digits_value(s) >= 0,
    decreases s.len(),
{
    if s.len() > 0 {
        assert(all_digits(s.drop_last()));
        lemma_digits_value_nonneg(s.drop_last());
    }
}

/// Extending a digit string by its next digit multiplies its value by ten
/// and adds that digit.
proof fn lemma_digits_value_snoc(s: Seq<char>, i: int)
    requires
        0 <= i < s.len(),
    ensures
        digits_value(s.subrange(0, i + 1)) == digits_value(s.subrange(0, i)) * 10 + digit_value(
            s[i],
        ),
{
    assert(s.subrange(0, i + 1).drop_last() =~= s.subrange(0, i));
    assert(s.subrange(0, i + 1).last() == s[i]);
}

/// A prefix of a digit string never stands for more than the whole string.
proof fn lemma_digits_prefix_le(s: Seq<char>, i: int)
    requires
        0 <= i <= s.len(),
        all_digits(s),
    ensures
        digits_value(s.subrange(0, i)) <= digits_value(s),
    decreases s.len() - i,
{
    if i == s.len() {
        assert(s.subrange(0, i) =~= s);
    } else {
        assert(all_digits(s.subrange(0, i)));
        lemma_digits_value_nonneg(s.subrange(0, i));
        lemma_digits_value_snoc(s, i);
        assert(digits_value(s.subrange(0, i)) * 10 >= digits_value(s.subrange(0, i))) by (nonlinear_arith)
            requires
                digits_value(s.subrange(0, i)) >= 0,
        ;
        lemma_digits_prefix_le(s, i + 1);
    }
}

/// Reads `s` as the decimal text of a signed 64-bit value, as
/// `str::parse::<i64>` would: `Some` exactly on texts of the accepted shape
/// and range, holding the value the text stands for.
pub fn parse_i64_text(s: &str) -> (r: Option<i64>)
    ensures
        match r {
            Some(v) => is_i64_text(s@) && v == text_value(s@),
            None => !is_i64_text(s@),
        },
{
    let n = s.unicode_len();
    if n == 0 {
        return None;
    }
    let first = s.get_char(0);
    let neg = first == '-';
    let start: usize = if first == '-' || first == '+' {
        1
    } else {
        0
    };
    let ghost b = digits_of(s@);
    proof {
        assert(b =~= s@.subrange(start as int, n as int));
    }
    if start == n {
        // A sign alone has no digits.
        return None;
    }
    let mut acc: u64 = 0;
    let mut i: usize = start;
    while i < n
        invariant
            start <= i <= n,
            n == s@.len(),
            start < n,
            b == digits_of(s@),
            b =~= s@.subrange(start as int, n as int),
            forall|j: int| 0 <= j < i - start ==> is_dec_digit(#[trigger] b[j]),
            acc == digits_value(b.subrange(0, i - start)),
            acc <= SIGNED_BOUND,
        decreases n - i,
    {
        let c = s.get_char(i);
        let cu = c as u32;
        if cu < 48 || cu > 57 {
            proof {
                assert(!is_dec_digit(b[i - start]));
            }
            return None;
        }
        let d = (cu - 48) as u64;
        proof {
            assert(d == digit_value(b[i - start]));
        }
        if acc > (SIGNED_BOUND - d) / 10 {
            proof {
                assert(acc * 10 + d > SIGNED_BOUND) by (nonlinear_arith)
                    requires
                        acc > (SIGNED_BOUND - d) / 10,
                        0 <= d <= 9,
                        acc >= 0,
                ;
                lemma_digits_value_snoc(b, i - start);
                if all_digits(b) {
                    lemma_digits_prefix_le(b, i - start + 1);
                    assert(digits_value(b) > SIGNED_BOUND);
                }
            }
            return None;
        }
        proof {
            assert(acc * 10 + d <= SIGNED_BOUND) by (nonlinear_arith)
                requires
                    acc <= (SIGNED_BOUND - d) / 10,
                    0 <= d <= 9,
                    acc >= 0,
            ;
            lemma_digits_value_snoc(b, i - start);
        }
        acc = acc * 10 + d;
        i = i + 1;
    }
    proof {
        assert(b.subrange(0, n - start) =~= b);
        assert(acc == digits_value(b));
        assert(all_digits(b));
    }
    if neg {
        if acc == SIGNED_BOUND {
            Some(i64::MIN)
        } else {
            Some(-(acc as i64))
        }
    } else {
        if acc == SIGNED_BOUND {
            // 2^63 itself is one past the largest signed 64-bit value.
            return None;
        }
        Some(acc as i64)
    }
}

} // verus!
