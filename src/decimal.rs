use vstd::prelude::*;

use crate::text::{find_char, first_of};

verus! {

/// A decimal number, `digits * 10^exponent`, negated where `negative` holds.
#[derive(Clone, Copy, PartialEq, Eq, Structural, Debug)]
pub struct Decimal {
    pub negative: bool,
    pub digits: u64,
    pub exponent: i32,
}

/// `10^n`.
pub open spec fn pow10(n: nat) -> nat
    decreases n,
{
    if n == 0 {
        1
    } else {
        10 * pow10((n - 1) as nat)
    }
}

/// Whether `c` is a decimal digit.
pub open spec fn is_digit(c: char) -> bool {
    '0' <= c && c <= '9'
}

/// Whether every character of `s` is a decimal digit.
pub open spec fn all_digits(s: Seq<char>) -> bool {
    forall|i: int| 0 <= i < s.len() ==> is_digit(#[trigger] s[i])
}

/// The number that the digits `s` spell in base ten.
pub open spec fn digits_value(s: Seq<char>) -> nat
    decreases s.len(),
{
    if s.len() == 0 {
        0
    } else {
        digits_value(s.drop_last()) * 10 + ((s.last() as int - '0' as int) as nat)
    }
}

/// A longer run of digits is worth at least as much as its first part.
proof fn lemma_digits_value_grows(s: Seq<char>, k: int)
    requires
        0 <= k <= s.len(),
        all_digits(s),
    ensures
        digits_value(s.take(k)) <= digits_value(s),
    decreases s.len() - k,
{
    if k < s.len() {
        let t = s.take(k + 1);
        assert(t.drop_last() =~= s.take(k));
        lemma_digits_value_grows(s, k + 1);
    } else {
        assert(s.take(k) =~= s);
    }
}

/// The number that the digits `s[from..to]` spell, where it fits in a `u64`.
pub fn read_digits(s: &Vec<char>, from: usize, to: usize) -> (r: Option<u64>)
    requires
        from <= to <= s@.len(),
        all_digits(s@.subrange(from as int, to as int)),
    ensures
        r == (if digits_value(s@.subrange(from as int, to as int)) <= u64::MAX {
            Some(digits_value(s@.subrange(from as int, to as int)) as u64)
        } else {
            None::<u64>
        }),
{
    let ghost t = s@.subrange(from as int, to as int);
    let mut acc: u64 = 0;
    let mut i: usize = from;
    while i < to
        invariant
            from <= i <= to <= s@.len(),
            t == s@.subrange(from as int, to as int),
            all_digits(t),
            acc == digits_value(t.take(i - from)),
        decreases to - i,
    {
        let c = s[i];
        assert(c == t[i - from]);
        let d = (c as u32 - '0' as u32) as u64;
        let ghost k = (i - from) as int;
        assert(t.take(k + 1).drop_last() =~= t.take(k));
        assert(digits_value(t.take(k + 1)) == acc * 10 + d);
        if acc > (u64::MAX - d) / 10 {
            proof {
                lemma_digits_value_grows(t, k + 1);
            }
            return None;
        }
        acc = acc * 10 + d;
        i += 1;
    }
    assert(t.take(to - from) =~= t);
    Some(acc)
}

/// Whether every character of `s[from..to]` is a decimal digit.
pub fn digits_only(s: &Vec<char>, from: usize, to: usize) -> (r: bool)
    requires
        from <= to <= s@.len(),
    ensures
        r == all_digits(s@.subrange(from as int, to as int)),
{
    let ghost t = s@.subrange(from as int, to as int);
    let mut i: usize = from;
    while i < to
        invariant
            from <= i <= to <= s@.len(),
            t == s@.subrange(from as int, to as int),
            forall|j: int| 0 <= j < i - from ==> is_digit(#[trigger] t[j]),
        decreases to - i,
    {
        let c = s[i];
        assert(c == t[i - from]);
        if !('0' <= c && c <= '9') {
            return false;
        }
        i += 1;
    }
    true
}

/// Appends `s[from..to]` to `out`.
pub fn append_range(out: &mut Vec<char>, s: &Vec<char>, from: usize, to: usize)
    requires
        from <= to <= s@.len(),
    ensures
        final(out)@ == old(out)@ + s@.subrange(from as int, to as int),
{
    let mut i: usize = from;
    while i < to
        invariant
            from <= i <= to <= s@.len(),
            out@ == old(out)@ + s@.subrange(from as int, i as int),
        decreases to - i,
    {
        out.push(s[i]);
        i += 1;
        assert(out@ =~= old(out)@ + s@.subrange(from as int, i as int));
    }
}

/// The text of a decimal without its leading minus sign.
pub open spec fn unsigned_text(s: Seq<char>) -> Seq<char> {
    if s.len() > 0 && s[0] == '-' {
        s.drop_first()
    } else {
        s
    }
}

/// The digits, with an optional fractional part, before the exponent.
pub open spec fn mantissa_text(s: Seq<char>) -> Seq<char> {
    unsigned_text(s).take(first_of(unsigned_text(s), 'e'))
}

/// Whether the text carries an exponent, after an `e`.
pub open spec fn has_exponent(s: Seq<char>) -> bool {
    first_of(unsigned_text(s), 'e') < unsigned_text(s).len()
}

/// The text after the `e`, where there is one.
pub open spec fn exponent_text(s: Seq<char>) -> Seq<char> {
    unsigned_text(s).skip(first_of(unsigned_text(s), 'e') + 1)
}

/// The digits before the decimal point.
pub open spec fn whole_text(s: Seq<char>) -> Seq<char> {
    mantissa_text(s).take(first_of(mantissa_text(s), '.'))
}

/// The digits after the decimal point, where there is one.
pub open spec fn fraction_text(s: Seq<char>) -> Seq<char> {
    let m = mantissa_text(s);
    if first_of(m, '.') < m.len() {
        m.skip(first_of(m, '.') + 1)
    } else {
        Seq::empty()
    }
}

/// Whether the exponent is negative.
pub open spec fn exponent_negative(s: Seq<char>) -> bool {
    exponent_text(s).len() > 0 && exponent_text(s)[0] == '-'
}

/// The digits of the exponent.
pub open spec fn exponent_digits(s: Seq<char>) -> Seq<char> {
    if exponent_negative(s) {
        exponent_text(s).drop_first()
    } else {
        exponent_text(s)
    }
}

/// Whether `s` is a decimal: an optional `-`, digits with an optional
/// fractional part after a `.` (at least one digit in all), then optionally
/// `e`, an optional `-` and at least one digit.
pub open spec fn is_decimal_text(s: Seq<char>) -> bool {
    &&& all_digits(whole_text(s))
    &&& all_digits(fraction_text(s))
    &&& whole_text(s).len() + fraction_text(s).len() > 0
    &&& has_exponent(s) ==> exponent_digits(s).len() > 0 && all_digits(exponent_digits(s))
}

/// The power of ten written after the `e`, zero where there is none.
pub open spec fn written_exponent(s: Seq<char>) -> int {
    if !has_exponent(s) {
        0
    } else if exponent_negative(s) {
        -digits_value(exponent_digits(s))
    } else {
        digits_value(exponent_digits(s)) as int
    }
}

/// The number that a decimal text stands for, where it is one and its parts
/// fit: the digits in a `u64`, the written exponent in a `u64` and the
/// resulting exponent in an `i32`.
#[verifier::opaque]
pub open spec fn decimal_of_text(s: Seq<char>) -> Option<Decimal> {
    let digits = digits_value(whole_text(s) + fraction_text(s));
    let exponent = written_exponent(s) - fraction_text(s).len();
    if is_decimal_text(s) && digits <= u64::MAX && (has_exponent(s) ==> digits_value(
        exponent_digits(s),
    ) <= u64::MAX) && i32::MIN <= exponent <= i32::MAX {
        Some(
            Decimal {
                negative: s.len() > 0 && s[0] == '-',
                digits: digits as u64,
                exponent: exponent as i32,
            },
        )
    } else {
        None
    }
}

/// Where the parts of a decimal text stand: whether it has a minus sign, and
/// the bounds of its whole digits, its fraction digits and its exponent
/// marker (`e`, or the end).
fn locate_parts(text: &Vec<char>) -> (r: (bool, usize, usize, usize, usize))
    ensures
        ({
            let (negative, start, dot, frac_from, e) = r;
            let s = text@;
            &&& negative == (s.len() > 0 && s[0] == '-')
            &&& start == (if negative { 1usize } else { 0usize })
            &&& start <= dot <= frac_from <= e <= s.len()
            &&& whole_text(s) == s.subrange(start as int, dot as int)
            &&& fraction_text(s) == s.subrange(frac_from as int, e as int)
            &&& has_exponent(s) == (e < s.len())
            &&& e < s.len() ==> exponent_text(s) == s.subrange(e + 1, s.len() as int)
        }),
{
    let ghost s = text@;
    let n = text.len();
    let negative = n > 0 && text[0] == '-';
    let start: usize = if negative {
        1
    } else {
        0
    };
    let ghost u = unsigned_text(s);
    assert(u =~= s.subrange(start as int, n as int));
    let e = find_char(text, 'e', start, n);
    proof {
        crate::text::lemma_first_of(u, 'e');
    }
    let ghost m = mantissa_text(s);
    assert(m =~= s.subrange(start as int, e as int));
    let dot = find_char(text, '.', start, e);
    proof {
        crate::text::lemma_first_of(m, '.');
    }
    assert(whole_text(s) =~= s.subrange(start as int, dot as int));
    let frac_from: usize = if dot < e {
        dot + 1
    } else {
        e
    };
    assert(fraction_text(s) =~= s.subrange(frac_from as int, e as int));
    if e < n {
        assert(exponent_text(s) =~= s.subrange(e + 1, n as int));
    }
    (negative, start, dot, frac_from, e)
}

/// Reads a decimal number such as `-12.5e-3`.
pub fn parse_decimal(text: &Vec<char>) -> (r: Option<Decimal>)
    ensures
        r == decimal_of_text(text@),
{
    let ghost s = text@;
    let n = text.len();
    let (negative, start, dot, frac_from, e) = locate_parts(text);
    if !digits_only(text, start, dot) || !digits_only(text, frac_from, e) || (dot - start) + (e
        - frac_from) == 0 {
        proof {
            reveal(decimal_of_text);
        }
        return None;
    }
    let mut joined: Vec<char> = Vec::new();
    append_range(&mut joined, text, start, dot);
    append_range(&mut joined, text, frac_from, e);
    assert(joined@ =~= whole_text(s) + fraction_text(s));
    assert(joined@.subrange(0, joined@.len() as int) =~= joined@);
    let digits = match read_digits(&joined, 0, joined.len()) {
        Some(d) => d,
        None => {
            proof {
                reveal(decimal_of_text);
            }
            return None;
        },
    };
    let frac_len = (e - frac_from) as i128;
    let mut written: i128 = 0;
    if e < n {
        let exp_negative = e + 1 < n && text[e + 1] == '-';
        let exp_from: usize = if exp_negative {
            e + 2
        } else {
            e + 1
        };
        assert(exponent_digits(s) =~= s.subrange(exp_from as int, n as int));
        if exp_from == n || !digits_only(text, exp_from, n) {
            proof {
                reveal(decimal_of_text);
            }
            return None;
        }
        let value = match read_digits(text, exp_from, n) {
            Some(v) => v,
            None => {
                proof {
                    reveal(decimal_of_text);
                }
                return None;
            },
        };
        written = if exp_negative {
            -(value as i128)
        } else {
            value as i128
        };
    }
    let exponent = written - frac_len;
    proof {
        reveal(decimal_of_text);
    }
    if exponent < i32::MIN as i128 || exponent > i32::MAX as i128 {
        return None;
    }
    Some(Decimal { negative, digits, exponent: exponent as i32 })
}

} // verus!
