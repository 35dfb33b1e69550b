//! Decimal integers in text: parsing as `str::parse` does for the integer
//! types, and formatting as `Display` does.
use vstd::prelude::*;
use crate::text::{chars_of, is_ascii_digit, push_char};

verus! {

pub open spec fn all_digits(d: Seq<char>) -> bool {
    forall|i: int| 0 <= i < d.len() ==> is_ascii_digit(#[trigger] d[i])
}

pub open spec fn digit_value(c: char) -> int {
    (c as u32) - ('0' as u32)
}

/// The value of a sequence of decimal digits.
pub open spec fn digits_value(d: Seq<char>) -> int
    decreases d.len(),
{
    if d.len() == 0 {
        0
    } else {
        digits_value(d.drop_last()) * 10 + digit_value(d.last())
    }
}

/// The integer a decimal numeral with an optional `+`/`-` sign denotes, as
/// `str::parse` reads it before its range check; `None` when the text is not
/// such a numeral (empty, a sign alone, or any other character).
pub open spec fn spec_parse_int(s: Seq<char>) -> Option<int> {
    if s.len() > 0 && (s[0] == '+' || s[0] == '-') {
        let d = s.drop_first();
        if d.len() > 0 && all_digits(d) {
            Some(
                if s[0] == '-' {
                    -digits_value(d)
                } else {
                    digits_value(d)
                },
            )
        } else {
            None
        }
    } else if s.len() > 0 && all_digits(s) {
        Some(digits_value(s))
    } else {
        None
    }
}

/// `str::parse::<i64>`.
pub open spec fn spec_parse_i64(s: Seq<char>) -> Option<i64> {
    match spec_parse_int(s) {
        Some(v) => if i64::MIN <= v <= i64::MAX {
            Some(v as i64)
        } else {
            None
        },
        None => None,
    }
}

/// `str::parse::<u32>` (which accepts a `+` sign but no `-`).
pub open spec fn spec_parse_u32(s: Seq<char>) -> Option<u32> {
    if s.len() > 0 && s[0] == '-' {
        None
    } else {
        match spec_parse_int(s) {
            Some(v) => if 0 <= v <= u32::MAX {
                Some(v as u32)
            } else {
                None
            },
            None => None,
        }
    }
}

proof fn lemma_digits_value_nonneg(d: Seq<char>)
    requires
        all_digits(d),
    ensures
        digits_value(d) >= 0,
    decreases d.len(),
{
    if d.len() > 0 {
        lemma_digits_value_nonneg(d.drop_last());
        assert(is_ascii_digit(d[d.len() - 1]));
    }
}

proof fn lemma_digits_value_mono(d: Seq<char>, i: int)
    requires
        all_digits(d),
        0 <= i <= d.len(),
    ensures
        digits_value(d.take(i)) <= digits_value(d),
    decreases d.len() - i,
{
    if i < d.len() {
        lemma_digits_value_mono(d, i + 1);
        let t = d.take(i + 1);
        assert(t.drop_last() =~= d.take(i));
        assert(is_ascii_digit(t.last()));
        lemma_digits_value_nonneg(d.take(i));
    } else {
        assert(d.take(i) =~= d);
    }
}

/// The value of the digits `cs[from..]` if every one is a digit and the value
/// is at most `limit`; `None` if some character is not a digit (or there is
/// none) or the value exceeds `limit`.
fn digits_upto(cs: &Vec<char>, from: usize, limit: u64) -> (r: Option<u64>)
    requires
        from <= cs@.len(),
    ensures
        ({
            let d = cs@.skip(from as int);
            match r {
                Some(v) => d.len() > 0 && all_digits(d) && v == digits_value(d) && v <= limit,
                None => !(d.len() > 0 && all_digits(d)) || digits_value(d) > limit,
            }
        }),
{
    let ghost d = cs@.skip(from as int);
    if from == cs.len() {
        return None;
    }
    let mut acc: u128 = 0;
    let mut i = from;
    while i < cs.len()
        invariant
            from <= i <= cs@.len(),
            d == cs@.skip(from as int),
            acc <= limit,
            all_digits(d.take(i - from)),
            acc == digits_value(d.take(i - from)),
        decreases cs@.len() - i,
    {
        let c = cs[i];
        if !('0' <= c && c <= '9') {
            assert(d[i - from] == c);
            return None;
        }
        let dv = (c as u32 - '0' as u32) as u128;
        proof {
            let t = d.take(i - from + 1);
            assert(t.drop_last() =~= d.take(i - from));
            assert(t.last() == c);
            assert(all_digits(t));
        }
        let next = acc * 10 + dv;
        i = i + 1;
        if next > limit as u128 {
            proof {
                if all_digits(d) {
                    lemma_digits_value_mono(d, i - from);
                }
            }
            return None;
        }
        acc = next;
    }
    assert(d.take(i - from) =~= d);
    Some(acc as u64)
}

/// `str::parse::<i64>`.
pub fn parse_i64(s: &str) -> (r: Option<i64>)
    ensures
        r == spec_parse_i64(s@),
{
    let cs = chars_of(s);
    if cs.len() == 0 {
        return None;
    }
    let neg = cs[0] == '-';
    let signed = cs[0] == '+' || neg;
    let from: usize = if signed {
        1
    } else {
        0
    };
    let limit: u64 = if neg {
        0x8000_0000_0000_0000
    } else {
        0x7FFF_FFFF_FFFF_FFFF
    };
    assert(cs@.skip(1) =~= cs@.drop_first());
    assert(cs@.skip(0) =~= cs@);
    match digits_upto(&cs, from, limit) {
        Some(v) => {
            if neg {
                if v == 0x8000_0000_0000_0000 {
                    Some(i64::MIN)
                } else {
                    let w = v as i64;
                    Some(-w)
                }
            } else {
                Some(v as i64)
            }
        },
        None => {
            proof {
                let d = cs@.skip(from as int);
                if d.len() > 0 && all_digits(d) {
                    lemma_digits_value_nonneg(d);
                }
                if !signed && cs@.len() > 0 && all_digits(cs@) {
                    assert(cs@[0] != '+' && cs@[0] != '-');
                }
            }
            None
        },
    }
}

/// `str::parse::<u32>`.
pub fn parse_u32(s: &str) -> (r: Option<u32>)
    ensures
        r == spec_parse_u32(s@),
{
    let cs = chars_of(s);
    if cs.len() == 0 || cs[0] == '-' {
        return None;
    }
    let from: usize = if cs[0] == '+' {
        1
    } else {
        0
    };
    assert(cs@.skip(1) =~= cs@.drop_first());
    assert(cs@.skip(0) =~= cs@);
    match digits_upto(&cs, from, 0xFFFF_FFFF) {
        Some(v) => Some(v as u32),
        None => {
            proof {
                let d = cs@.skip(from as int);
                if d.len() > 0 && all_digits(d) {
                    lemma_digits_value_nonneg(d);
                }
                if from == 0 && cs@.len() > 0 && all_digits(cs@) {
                    assert(cs@[0] != '+');
                }
            }
            None
        },
    }
}

/// The decimal numeral of `n` as `Display` writes it: no sign, no leading
/// zeros, and `0` for zero.
pub open spec fn decimal(n: nat) -> Seq<char>
    decreases n,
{
    if n < 10 {
        seq![digit_char(n)]
    } else {
        decimal(n / 10) + seq![digit_char(n % 10)]
    }
}

pub open spec fn digit_char(d: nat) -> char {
    (('0' as u32) + d) as char
}

/// Appends the decimal numeral of `n` to `s`.
pub fn push_decimal(s: &mut String, n: u64)
    ensures
        final(s)@ == old(s)@ + decimal(n as nat),
    decreases n,
{
    if n >= 10 {
        push_decimal(s, n / 10);
    }
    let d = (n % 10) as u32;
    let c = ((d + 0x30) as u8) as char;
    assert(c == digit_char((n % 10) as nat));
    push_char(s, c);
    proof {
        if n >= 10 {
            assert(final(s)@ =~= old(s)@ + decimal(n as nat));
        } else {
            assert(final(s)@ =~= old(s)@ + decimal(n as nat));
        }
    }
}

/// `n.to_string()`.
pub fn u64_to_string(n: u64) -> (r: String)
    ensures
        r@ == decimal(n as nat),
{
    let mut s = String::new();
    push_decimal(&mut s, n);
    s
}

/// The decimal numeral of a signed integer: a `-` before the magnitude of a
/// negative one.
pub open spec fn signed_decimal(n: int) -> Seq<char> {
    if n < 0 {
        seq!['-'] + decimal((-n) as nat)
    } else {
        decimal(n as nat)
    }
}

/// Appends the decimal numeral of the signed `n` to `s`.
pub fn push_signed_decimal(s: &mut String, n: i64)
    ensures
        final(s)@ == old(s)@ + signed_decimal(n as int),
{
    if n < 0 {
        push_char(s, '-');
        let m: u64 = (-(n as i128)) as u64;
        push_decimal(s, m);
        assert(final(s)@ =~= old(s)@ + signed_decimal(n as int));
    } else {
        push_decimal(s, n as u64);
    }
}

/// Appends the decimal numeral of the 128-bit `n` to `s`.
pub fn push_decimal_u128(s: &mut String, n: u128)
    ensures
        final(s)@ == old(s)@ + decimal(n as nat),
    decreases n,
{
    if n >= 10 {
        push_decimal_u128(s, n / 10);
    }
    let d = (n % 10) as u32;
    let c = ((d + 0x30) as u8) as char;
    assert(c == digit_char((n % 10) as nat));
    push_char(s, c);
    assert(final(s)@ =~= old(s)@ + decimal(n as nat));
}

pub open spec fn pow10(k: nat) -> nat
    decreases k,
{
    if k == 0 {
        1
    } else {
        10 * pow10((k - 1) as nat)
    }
}

/// A number below `10^k` has at most `k` digits.
pub proof fn lemma_decimal_len(n: nat, k: nat)
    requires
        k >= 1,
        n < pow10(k),
    ensures
        decimal(n).len() <= k,
    decreases n,
{
    if n >= 10 {
        assert(k >= 2) by {
            if k == 1 {
                assert(pow10(1) == 10) by {
                    reveal_with_fuel(pow10, 2);
                }
            }
        }
        assert(n / 10 < pow10((k - 1) as nat));
        lemma_decimal_len(n / 10, (k - 1) as nat);
    }
}

/// The decimal numeral of a `u64` has at most 20 digits.
pub proof fn lemma_decimal_u64_len(n: u64)
    ensures
        decimal(n as nat).len() <= 20,
{
    assert(pow10(20) == 100000000000000000000nat) by {
        reveal_with_fuel(pow10, 21);
    }
    lemma_decimal_len(n as nat, 20);
}

} // verus!
