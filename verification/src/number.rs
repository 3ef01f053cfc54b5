//! Decimal notation of exit codes.

use vstd::prelude::*;

verus! {

/// Whether `c` is one of the decimal digits `0` to `9`.
pub open spec fn is_digit(c: char) -> bool {
    48 <= (c as u32) <= 57
}

/// Whether `s` holds decimal digits only.
pub open spec fn all_digits(s: Seq<char>) -> bool {
    forall|i: int| 0 <= i < s.len() ==> is_digit(#[trigger] s[i])
}

/// The number that a run of decimal digits denotes.
pub open spec fn digits_value(s: Seq<char>) -> int
    decreases s.len(),
{
    if s.len() == 0 {
        0
    } else {
        digits_value(s.drop_last()) * 10 + ((s.last() as u32) as int - 48)
    }
}

/// The exit code that `s` denotes: an optional sign, then one or more
/// decimal digits, the whole within the range of `i32`.
pub open spec fn parse_code(s: Seq<char>) -> Option<int> {
    let signed = s.len() > 0 && (s[0] == '-' || s[0] == '+');
    let digits = if signed {
        s.drop_first()
    } else {
        s
    };
    let value = if signed && s[0] == '-' {
        -digits_value(digits)
    } else {
        digits_value(digits)
    };
    if digits.len() > 0 && all_digits(digits) && i32::MIN <= value <= i32::MAX {
        Some(value)
    } else {
        None
    }
}

/// The character that stands for the digit `d`.
pub open spec fn digit_char(d: int) -> char {
    ((48 + d) as u8) as char
}

/// The decimal digits of `n`, without leading zeros.
pub open spec fn decimal_nat(n: nat) -> Seq<char>
    decreases n,
{
    if n < 10 {
        seq![digit_char(n as int)]
    } else {
        decimal_nat(n / 10).push(digit_char((n % 10) as int))
    }
}

/// The decimal notation of `v`, with a minus sign where it is negative.
pub open spec fn decimal(v: int) -> Seq<char> {
    if v < 0 {
        seq!['-'] + decimal_nat((-v) as nat)
    } else {
        decimal_nat(v as nat)
    }
}

/// A run of digits denotes at least what each of its prefixes denotes.
pub proof fn lemma_digits_value_grows(s: Seq<char>, k: int)
    requires
        all_digits(s),
        0 <= k <= s.len(),
    ensures
        0 <= digits_value(s.take(k)) <= digits_value(s),
    decreases s.len(),
{
    if k == s.len() {
        assert(s.take(k) =~= s);
        if s.len() > 0 {
            lemma_digits_value_grows(s.drop_last(), k - 1);
            assert(is_digit(s[s.len() - 1]));
        }
    } else {
        assert(s.drop_last().take(k) =~= s.take(k));
        lemma_digits_value_grows(s.drop_last(), k);
        assert(is_digit(s[s.len() - 1]));
    }
}

/// What `decimal_nat` writes is a run of digits that denotes `n`.
pub proof fn lemma_decimal_nat_reads_back(n: nat)
    ensures
        decimal_nat(n).len() > 0,
        all_digits(decimal_nat(n)),
        digits_value(decimal_nat(n)) == n,
    decreases n,
{
    if n < 10 {
        let s = decimal_nat(n);
        assert(s.drop_last() =~= Seq::<char>::empty());
        assert(digits_value(s.drop_last()) == 0);
    } else {
        lemma_decimal_nat_reads_back(n / 10);
        let head = decimal_nat(n / 10);
        let s = decimal_nat(n);
        assert(s.drop_last() =~= head);
        assert forall|i: int| 0 <= i < s.len() implies is_digit(#[trigger] s[i]) by {
            if i < head.len() {
                assert(s[i] == head[i]);
            }
        }
    }
}

/// An exit code written in decimal notation is read back as itself.
pub proof fn lemma_decimal_reads_back(v: int)
    requires
        i32::MIN <= v <= i32::MAX,
    ensures
        parse_code(decimal(v)) == Some(v),
{
    if v < 0 {
        let m = (-v) as nat;
        lemma_decimal_nat_reads_back(m);
        assert(decimal(v).drop_first() =~= decimal_nat(m));
    } else {
        lemma_decimal_nat_reads_back(v as nat);
        assert(is_digit(decimal(v)[0]));
    }
}

/// Reads the exit code written in `chars` from `lo` to the end.
#[verifier::loop_isolation(false)]
pub fn read_code(chars: &Vec<char>, lo: usize) -> (r: Option<i32>)
    requires
        lo <= chars@.len(),
    ensures
        match r {
            Some(v) => parse_code(chars@.subrange(lo as int, chars@.len() as int)) == Some(
                v as int,
            ),
            None => parse_code(chars@.subrange(lo as int, chars@.len() as int)) is None,
        },
{
    let n = chars.len();
    let ghost s = chars@.subrange(lo as int, n as int);
    if lo == n {
        return None;
    }
    let first = chars[lo];
    assert(s[0] == first);
    let signed = first == '-' || first == '+';
    let negative = first == '-';
    let start: usize = if signed {
        lo + 1
    } else {
        lo
    };
    let ghost digits = chars@.subrange(start as int, n as int);
    assert(digits =~= if signed {
        s.drop_first()
    } else {
        s
    });
    if start == n {
        return None;
    }
    let mut acc: i64 = 0;
    let mut i: usize = start;
    while i < n
        invariant
            start <= i <= n,
            n == chars@.len(),
            digits == chars@.subrange(start as int, n as int),
            all_digits(digits.take(i - start)),
            acc == digits_value(digits.take(i - start)),
            0 <= acc <= 2147483648,
        decreases n - i,
    {
        let c: u32 = chars[i] as u32;
        assert(digits[i - start] == chars@[i as int]);
        if c < 48 || c > 57 {
            assert(!is_digit(digits[i - start]));
            return None;
        }
        let next: i64 = acc * 10 + (c as i64 - 48);
        proof {
            let longer = digits.take(i - start + 1);
            assert(longer.drop_last() =~= digits.take(i - start));
            assert(longer.last() == chars@[i as int]);
            assert(digits_value(longer) == next);
            assert forall|j: int| 0 <= j < longer.len() implies is_digit(#[trigger] longer[j]) by {
                if j < i - start {
                    assert(longer[j] == digits.take(i - start)[j]);
                }
            }
        }
        if next > 2147483648 {
            proof {
                if all_digits(digits) {
                    lemma_digits_value_grows(digits, i - start + 1);
                }
            }
            return None;
        }
        acc = next;
        i += 1;
    }
    assert(digits.take(n - start) =~= digits);
    if negative {
        Some((-acc) as i32)
    } else if acc <= 2147483647 {
        Some(acc as i32)
    } else {
        None
    }
}

/// Appends the decimal digits of `n` to `out`.
pub fn push_decimal_nat(out: &mut String, n: u32)
    ensures
        final(out)@ == old(out)@ + decimal_nat(n as nat),
    decreases n,
{
    if n >= 10 {
        push_decimal_nat(out, n / 10);
    }
    let d: u8 = (n % 10) as u8;
    crate::text::push_char(out, (48u8 + d) as char);
    assert(final(out)@ =~= old(out)@ + decimal_nat(n as nat));
}

/// Appends the decimal notation of `code` to `out`.
pub fn push_decimal(out: &mut String, code: i32)
    ensures
        final(out)@ == old(out)@ + decimal(code as int),
{
    if code < 0 {
        crate::text::push_char(out, '-');
        let magnitude: u32 = (-(code as i64)) as u32;
        push_decimal_nat(out, magnitude);
        assert(final(out)@ =~= old(out)@ + decimal(code as int));
    } else {
        push_decimal_nat(out, code as u32);
    }
}

} // verus!
