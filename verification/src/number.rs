//! Decimal integers in text: parsing with the rules of `str::parse` for `i64`,
//! `u16` and `usize`, and formatting as `Display` writes them.

use vstd::prelude::*;

use crate::text::chars_of;

verus! {

/// `c` is one of `0`..`9`.
pub open spec fn is_digit(c: char) -> bool {
    '0' <= c && c <= '9'
}

/// The value of the digit `c`.
pub open spec fn digit_value(c: char) -> int {
    (c as u32) - ('0' as u32)
}

/// The digit character for `d` in `0..10`.
pub open spec fn digit_char(d: int) -> char {
    ((d + 48) as u32) as char
}

/// Every character of `d` is a decimal digit.
pub open spec fn all_digits(d: Seq<char>) -> bool {
    forall|i: int| 0 <= i < d.len() ==> is_digit(#[trigger] d[i])
}

/// The number that the digits `d` spell, most significant first.
pub open spec fn digits_value(d: Seq<char>) -> int
    decreases d.len(),
{
    if d.len() == 0 {
        0
    } else {
        digits_value(d.drop_last()) * 10 + digit_value(d.last())
    }
}

/// What `str::parse` reads from `s` for an integer type, before its range is checked:
/// an optional `+` (or `-` when `signed`), then one or more decimal digits.
pub open spec fn parse_integer_spec(s: Seq<char>, signed: bool) -> Option<int> {
    let negative = signed && s.len() > 0 && s[0] == '-';
    let digits = if s.len() > 0 && (s[0] == '+' || negative) {
        s.drop_first()
    } else {
        s
    };
    if digits.len() == 0 || !all_digits(digits) {
        None
    } else if negative {
        Some(-digits_value(digits))
    } else {
        Some(digits_value(digits))
    }
}

/// What `s.parse::<i64>()` gives, `None` for an error.
pub open spec fn parse_i64_spec(s: Seq<char>) -> Option<i64> {
    match parse_integer_spec(s, true) {
        Some(v) => if i64::MIN <= v <= i64::MAX {
            Some(v as i64)
        } else {
            None
        },
        None => None,
    }
}

/// What `s.parse::<u16>()` gives, `None` for an error.
pub open spec fn parse_u16_spec(s: Seq<char>) -> Option<u16> {
    match parse_integer_spec(s, false) {
        Some(v) => if v <= u16::MAX {
            Some(v as u16)
        } else {
            None
        },
        None => None,
    }
}

/// What `s.parse::<usize>()` gives, `None` for an error.
pub open spec fn parse_usize_spec(s: Seq<char>) -> Option<usize> {
    match parse_integer_spec(s, false) {
        Some(v) => if v <= usize::MAX {
            Some(v as usize)
        } else {
            None
        },
        None => None,
    }
}

/// The decimal digits of `n`, without leading zeros (`"0"` for zero).
pub open spec fn nat_digits(n: nat) -> Seq<char>
    decreases n,
{
    if n < 10 {
        seq![digit_char(n as int)]
    } else {
        nat_digits(n / 10).push(digit_char((n % 10) as int))
    }
}

/// `n` as `Display` writes an integer: a `-` for negatives, then its digits.
pub open spec fn decimal(n: int) -> Seq<char> {
    if n < 0 {
        seq!['-'] + nat_digits((-n) as nat)
    } else {
        nat_digits(n as nat)
    }
}

proof fn lemma_digits_value_prefix_mono(d: Seq<char>, i: int)
    requires
        all_digits(d),
        0 <= i <= d.len(),
    ensures
        0 <= digits_value(d.take(i)) <= digits_value(d),
    decreases d.len() - i,
{
    lemma_digits_value_nonneg(d);
    if i < d.len() {
        lemma_digits_value_prefix_mono(d, i + 1);
        assert(d.take(i + 1).drop_last() == d.take(i));
        assert(all_digits(d.take(i)));
        lemma_digits_value_nonneg(d.take(i));
        assert(is_digit(d[i]));
    } else {
        assert(d.take(i) == d);
    }
}

proof fn lemma_digits_value_nonneg(d: Seq<char>)
    requires
        all_digits(d),
    ensures
        digits_value(d) >= 0,
    decreases d.len(),
{
    if d.len() > 0 {
        assert(all_digits(d.drop_last()));
        lemma_digits_value_nonneg(d.drop_last());
        assert(is_digit(d.last()));
    }
}

/// Reads `d[start..]` as a decimal number no larger than `limit`.
fn parse_digits_bounded(d: &Vec<char>, start: usize, limit: u64) -> (res: Option<u64>)
    requires
        start <= d.len(),
        limit >= 9,
    ensures
        ({
            let rest = d@.skip(start as int);
            match res {
                Some(v) => rest.len() > 0 && all_digits(rest) && v == digits_value(rest) && v
                    <= limit,
                None => rest.len() == 0 || !all_digits(rest) || digits_value(rest) > limit,
            }
        }),
{
    let ghost rest = d@.skip(start as int);
    if start == d.len() {
        return None;
    }
    let mut acc: u64 = 0;
    let mut i: usize = start;
    while i < d.len()
        invariant
            start <= i <= d.len(),
            rest == d@.skip(start as int),
            all_digits(rest.take(i - start)),
            acc == digits_value(rest.take(i - start)),
            acc <= limit,
            limit >= 9,
        decreases d.len() - i,
    {
        let c = d[i];
        if !('0' <= c && c <= '9') {
            assert(rest[i - start] == c);
            return None;
        }
        let dv = (c as u64) - 48;
        assert(rest.take(i - start + 1).drop_last() == rest.take(i - start));
        assert(rest.take(i - start + 1).last() == c);
        if acc > (limit - dv) / 10 {
            proof {
                assert(acc * 10 + dv > limit) by (nonlinear_arith)
                    requires
                        acc > (limit - dv) / 10,
                        dv <= 9,
                        limit >= 9,
                ;
                assert(forall|k: int| 0 <= k < i - start + 1 ==> is_digit(#[trigger] rest.take(i - start + 1)[k]));
                if all_digits(rest) {
                    lemma_digits_value_prefix_mono(rest, i - start + 1);
                }
            }
            return None;
        }
        proof {
            assert(acc * 10 + dv <= limit) by (nonlinear_arith)
                requires
                    acc <= (limit - dv) / 10,
                    dv <= 9,
                    limit >= 9,
            ;
        }
        acc = acc * 10 + dv;
        assert(all_digits(rest.take(i - start + 1)));
        i = i + 1;
    }
    assert(rest.take(i - start) == rest);
    Some(acc)
}


/// `s.parse::<i64>()`, with `None` for any error.
pub fn parse_i64(s: &str) -> (res: Option<i64>)
    ensures
        res == parse_i64_spec(s@),
{
    let cs = chars_of(s);
    if cs.len() == 0 {
        return None;
    }
    let negative = cs[0] == '-';
    let start: usize = if cs[0] == '+' || negative {
        1
    } else {
        0
    };
    assert(cs@.skip(1) == cs@.drop_first());
    assert(cs@.skip(0) == cs@);
    let limit: u64 = if negative {
        0x8000_0000_0000_0000
    } else {
        0x7FFF_FFFF_FFFF_FFFF
    };
    match parse_digits_bounded(&cs, start, limit) {
        Some(v) => {
            if negative {
                if v == 0x8000_0000_0000_0000 {
                    Some(i64::MIN)
                } else {
                    let m = v as i64;
                    Some(-m)
                }
            } else {
                Some(v as i64)
            }
        },
        None => None,
    }
}

/// `s.parse::<u16>()`, with `None` for any error.
pub fn parse_u16(s: &str) -> (res: Option<u16>)
    ensures
        res == parse_u16_spec(s@),
{
    let cs = chars_of(s);
    if cs.len() == 0 {
        return None;
    }
    let start: usize = if cs[0] == '+' {
        1
    } else {
        0
    };
    assert(cs@.skip(1) == cs@.drop_first());
    assert(cs@.skip(0) == cs@);
    match parse_digits_bounded(&cs, start, 0xFFFF) {
        Some(v) => Some(v as u16),
        None => None,
    }
}

/// `s.parse::<usize>()`, with `None` for any error.
pub fn parse_usize(s: &str) -> (res: Option<usize>)
    ensures
        res == parse_usize_spec(s@),
{
    let cs = chars_of(s);
    if cs.len() == 0 {
        return None;
    }
    let start: usize = if cs[0] == '+' {
        1
    } else {
        0
    };
    assert(cs@.skip(1) == cs@.drop_first());
    assert(cs@.skip(0) == cs@);
    let limit: u64 = usize::MAX as u64;
    match parse_digits_bounded(&cs, start, limit) {
        Some(v) => Some(v as usize),
        None => None,
    }
}

/// Appends the decimal digits of `n` to `out`.
fn push_digits(out: &mut String, n: u64)
    ensures
        final(out)@ == old(out)@ + nat_digits(n as nat),
    decreases n,
{
    if n >= 10 {
        push_digits(out, n / 10);
    }
    let d: u8 = (n % 10) as u8;
    let c: char = (d + 48) as char;
    out.push(c);
}

/// `n` in decimal, as `Display` writes it.
pub fn format_u64(n: u64) -> (res: String)
    ensures
        res@ == nat_digits(n as nat),
{
    let mut out = String::new();
    push_digits(&mut out, n);
    out
}

/// `n` in decimal, as `Display` writes it.
pub fn format_usize(n: usize) -> (res: String)
    ensures
        res@ == decimal(n as int),
{
    format_u64(n as u64)
}

/// `n` in decimal, as `Display` writes it.
pub fn format_i64(n: i64) -> (res: String)
    ensures
        res@ == decimal(n as int),
{
    if n < 0 {
        let magnitude: u64 = if n == i64::MIN {
            0x8000_0000_0000_0000
        } else {
            (-n) as u64
        };
        let mut out = String::new();
        out.push('-');
        push_digits(&mut out, magnitude);
        out
    } else {
        format_u64(n as u64)
    }
}

proof fn lemma_nat_digits_read_back(n: nat)
    ensures
        nat_digits(n).len() > 0,
        all_digits(nat_digits(n)),
        digits_value(nat_digits(n)) == n,
        nat_digits(n)[0] != '+' && nat_digits(n)[0] != '-',
    decreases n,
{
    if n >= 10 {
        lemma_nat_digits_read_back(n / 10);
        let d = nat_digits(n);
        assert(d.drop_last() == nat_digits(n / 10));
        assert(d[0] == nat_digits(n / 10)[0]);
        assert(d.last() == digit_char((n % 10) as int));
        assert(digit_value(digit_char((n % 10) as int)) == n % 10);
        assert((n / 10) * 10 + n % 10 == n) by (nonlinear_arith);
        assert(digits_value(d) == digits_value(nat_digits(n / 10)) * 10 + digit_value(d.last()));
    } else {
        let d = nat_digits(n);
        assert(d.drop_last() =~= Seq::<char>::empty());
        assert(digits_value(d.drop_last()) == 0);
        assert(digit_value(digit_char(n as int)) == n);
    }
}

/// Law: the decimal text of any `i64` reads back as the same number.
pub proof fn parse_reads_back_decimal(n: i64)
    ensures
        parse_i64_spec(decimal(n as int)) == Some(n),
{
    let m: nat = if n < 0 {
        (-n) as nat
    } else {
        n as nat
    };
    lemma_nat_digits_read_back(m);
    let s = decimal(n as int);
    if n < 0 {
        assert(s.drop_first() == nat_digits(m));
    }
}

} // verus!
