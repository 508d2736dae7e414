use vstd::prelude::*;

use crate::decimal::{pow10, Decimal};

verus! {

/// Significant figures to which two quantities stored as 64-bit floats are
/// compared.
pub const SIGNIFICANT_FIGURES: u32 = 12;

/// Number of digits of `n` in base ten (one for zero).
pub open spec fn digit_count(n: nat) -> nat
    decreases n,
{
    if n < 10 {
        1
    } else {
        1 + digit_count(n / 10)
    }
}

/// The digits of `d` with its sign.
pub open spec fn signed_digits(d: Decimal) -> int {
    if d.negative {
        -(d.digits as int)
    } else {
        d.digits as int
    }
}

/// `floor(log10(|d|))` of a non-zero decimal.
pub open spec fn magnitude(d: Decimal) -> int {
    digit_count(d.digits as nat) - 1 + d.exponent
}

/// Whether `a` and `b` agree to `figures` significant figures.
///
/// Zero agrees only with zero. Two non-zero values agree when their
/// magnitudes `floor(log10(|x|))` are equal and their difference, scaled by
/// `10^(figures - magnitude - 1)`, rounds to zero. The difference is
/// `n * 10^m`, with `m` the smaller exponent, so the scaled difference is
/// `n * 10^t`; it rounds to zero when its absolute value is below one half.
pub open spec fn agree_to_figures(a: Decimal, b: Decimal, figures: nat) -> bool {
    if a.digits == 0 || b.digits == 0 {
        a.digits == 0 && b.digits == 0
    } else if magnitude(a) != magnitude(b) {
        false
    } else {
        let m = if a.exponent <= b.exponent {
            a.exponent as int
        } else {
            b.exponent as int
        };
        let n = signed_digits(a) * pow10((a.exponent - m) as nat) - signed_digits(b) * pow10(
            (b.exponent - m) as nat,
        );
        let t = m + figures - magnitude(a) - 1;
        if t >= 0 {
            n == 0
        } else {
            2 * (if n < 0 {
                -n
            } else {
                n
            }) < pow10((-t) as nat)
        }
    }
}

proof fn lemma_pow10_add(a: nat, b: nat)
    ensures
        pow10(a + b) == pow10(a) * pow10(b),
    decreases a,
{
    if a > 0 {
        lemma_pow10_add((a - 1) as nat, b);
        assert(pow10(a) == 10 * pow10((a - 1) as nat));
        assert(pow10(a + b) == 10 * pow10((a - 1 + b) as nat));
        assert(10 * (pow10((a - 1) as nat) * pow10(b)) == (10 * pow10((a - 1) as nat)) * pow10(b))
            by (nonlinear_arith);
    } else {
        assert(pow10(0) == 1);
        let p = pow10(b);
        assert(p == 1 * p) by (nonlinear_arith);
    }
}

proof fn lemma_pow10_monotone(a: nat, b: nat)
    requires
        a <= b,
    ensures
        1 <= pow10(a) <= pow10(b),
    decreases b,
{
    if b > 0 {
        if a < b {
            lemma_pow10_monotone(a, (b - 1) as nat);
        } else {
            lemma_pow10_monotone((a - 1) as nat, (b - 1) as nat);
        }
    }
}

proof fn lemma_pow10_twenty()
    ensures
        pow10(20) == 100000000000000000000,
{
    reveal_with_fuel(pow10, 21);
}

proof fn lemma_digit_count_bounds(x: nat)
    requires
        x > 0,
    ensures
        1 <= digit_count(x),
        pow10((digit_count(x) - 1) as nat) <= x < pow10(digit_count(x)),
    decreases x,
{
    if x >= 10 {
        let y = x / 10;
        lemma_digit_count_bounds(y);
        let k = digit_count(y);
        assert(pow10(k) == 10 * pow10((k - 1) as nat));
        assert(pow10(k + 1) == 10 * pow10(k));
        assert(10 * pow10((k - 1) as nat) <= x) by (nonlinear_arith)
            requires
                pow10((k - 1) as nat) <= y,
                y == x / 10,
        ;
        assert(x < 10 * pow10(k)) by (nonlinear_arith)
            requires
                y < pow10(k),
                y == x / 10,
        ;
    } else {
        assert(pow10(0) == 1);
        assert(pow10(1) == 10) by {
            reveal_with_fuel(pow10, 2);
        }
    }
}

/// The number of base-ten digits of a non-zero `x`.
fn count_digits(x: u64) -> (c: u32)
    requires
        x > 0,
    ensures
        c == digit_count(x as nat),
        1 <= c <= 20,
        pow10((c - 1) as nat) <= x < pow10(c as nat),
{
    let mut c: u32 = 1;
    let mut y: u64 = x;
    proof {
        lemma_pow10_twenty();
        assert(pow10(0) == 1);
        let p = pow10((c - 1) as nat);
        assert(p == 1);
        assert(y as int * p == x as int) by (nonlinear_arith)
            requires
                p == 1,
                y == x,
        ;
    }
    while y >= 10
        invariant
            y > 0,
            1 <= c <= 20,
            digit_count(x as nat) == c - 1 + digit_count(y as nat),
            y as int * pow10((c - 1) as nat) <= x as int,
            pow10(20) == 100000000000000000000,
        decreases y,
    {
        proof {
            let p = pow10((c - 1) as nat);
            lemma_pow10_add((c - 1) as nat, 1);
            reveal_with_fuel(pow10, 2);
            assert(pow10(c as nat) == p * 10);
            assert((y / 10) as int * (p * 10) <= y as int * p) by (nonlinear_arith)
                requires
                    p >= 0,
                    y >= 10,
            ;
            assert(10 * p <= x as int) by (nonlinear_arith)
                requires
                    y as int * p <= x as int,
                    y >= 10,
                    p >= 0,
            ;
            if c >= 20 {
                lemma_pow10_monotone(20, c as nat);
                assert(false);
            }
        }
        y = y / 10;
        c = c + 1;
    }
    proof {
        lemma_digit_count_bounds(x as nat);
    }
    c
}

/// `10^k` for `k` up to twenty.
fn pow10_small(k: u32) -> (r: u128)
    requires
        k <= 20,
    ensures
        r == pow10(k as nat),
{
    let mut r: u128 = 1;
    let mut i: u32 = 0;
    while i < k
        invariant
            i <= k <= 20,
            r == pow10(i as nat),
        decreases k - i,
    {
        proof {
            lemma_pow10_monotone((i + 1) as nat, 20);
            lemma_pow10_twenty();
        }
        r = r * 10;
        i = i + 1;
    }
    r
}

/// `d`'s digits times `10^shift`, with `d`'s sign.
fn scaled(d: Decimal, shift: u32, count: u32) -> (r: i128)
    requires
        shift + count <= 20,
        d.digits < pow10(count as nat),
    ensures
        r == signed_digits(d) * pow10(shift as nat),
        -100000000000000000000 < r < 100000000000000000000,
{
    let p = pow10_small(shift);
    proof {
        lemma_pow10_add(count as nat, shift as nat);
        lemma_pow10_monotone((count + shift) as nat, 20);
        lemma_pow10_twenty();
        lemma_pow10_monotone(0, shift as nat);
        assert(pow10(0) == 1);
        assert(d.digits as int * p < pow10(count as nat) * p) by (nonlinear_arith)
            requires
                d.digits < pow10(count as nat),
                p >= 1,
        ;
        assert(-(d.digits as int) * p == -(d.digits as int * p)) by (nonlinear_arith);
    }
    let x = d.digits as u128 * p;
    if d.negative {
        -(x as i128)
    } else {
        x as i128
    }
}

/// Whether `a` and `b` agree to `figures` significant figures: both zero, or
/// of one magnitude with a difference that rounds to zero at the last of
/// those figures.
pub fn approx_eq(a: Decimal, b: Decimal, figures: u32) -> (r: bool)
    ensures
        r == agree_to_figures(a, b, figures as nat),
{
    if a.digits == 0 || b.digits == 0 {
        return a.digits == 0 && b.digits == 0;
    }
    let la = count_digits(a.digits);
    let lb = count_digits(b.digits);
    let ma: i64 = la as i64 - 1 + a.exponent as i64;
    let mb: i64 = lb as i64 - 1 + b.exponent as i64;
    if ma != mb {
        return false;
    }
    proof {
        lemma_pow10_monotone(0, 20);
        assert(pow10(0) == 1);
    }
    let long: u32;
    let n: i128;
    if a.exponent <= b.exponent {
        let x = scaled(a, 0, la);
        let y = scaled(b, la - lb, lb);
        long = la;
        n = x - y;
    } else {
        let x = scaled(a, lb - la, la);
        let y = scaled(b, 0, lb);
        long = lb;
        n = x - y;
    }
    if figures >= long {
        n == 0
    } else {
        let abs: i128 = if n < 0 {
            -n
        } else {
            n
        };
        let bound = pow10_small(long - figures);
        ((2 * abs) as u128) < bound
    }
}

/// Every value agrees with itself.
pub proof fn law_agree_reflexive(a: Decimal, figures: nat)
    ensures
        agree_to_figures(a, a, figures),
{
    if a.digits != 0 {
        let m = a.exponent as int;
        let t = m + figures - magnitude(a) - 1;
        if t < 0 {
            lemma_pow10_monotone(0, (-t) as nat);
        }
        assert(pow10(0) == 1);
        let n = signed_digits(a) * pow10(0) - signed_digits(a) * pow10(0);
        assert(n == 0);
    }
}

/// Agreement does not depend on the order of the two values.
pub proof fn law_agree_symmetric(a: Decimal, b: Decimal, figures: nat)
    ensures
        agree_to_figures(a, b, figures) == agree_to_figures(b, a, figures),
{
}

} // verus!
