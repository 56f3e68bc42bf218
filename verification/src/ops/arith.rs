//! The mathematics behind the checked operations: what division that rounds
//! toward zero yields, when a quotient fits, and powers within a limit.

use vstd::arithmetic::power::{lemma_pow_increases, pow};
use vstd::prelude::*;

verus! {

/// The magnitude of `x`.
pub open spec fn magnitude(x: int) -> int {
    if x < 0 {
        -x
    } else {
        x
    }
}

/// The quotient of `a` by `b`, rounded toward zero.
pub open spec fn trunc_div(a: int, b: int) -> int {
    if (a < 0) == (b < 0) {
        magnitude(a) / magnitude(b)
    } else {
        -(magnitude(a) / magnitude(b))
    }
}

/// What is left of `a` after `trunc_div(a, b)` times `b` is taken away. It
/// has the sign of `a`.
pub open spec fn trunc_rem(a: int, b: int) -> int {
    if a < 0 {
        -(magnitude(a) % magnitude(b))
    } else {
        magnitude(a) % magnitude(b)
    }
}

/// Quotient and remainder of the division that rounds toward zero add up to
/// the dividend, and the remainder is smaller in magnitude than the divisor.
pub proof fn lemma_trunc_div_rem(a: int, b: int)
    requires
        b != 0,
    ensures
        b * trunc_div(a, b) + trunc_rem(a, b) == a,
        magnitude(trunc_rem(a, b)) < magnitude(b),
        a >= 0 ==> trunc_rem(a, b) >= 0,
        a <= 0 ==> trunc_rem(a, b) <= 0,
{
    let x = magnitude(a);
    let d = magnitude(b);
    assert(d * (x / d) + x % d == x && 0 <= x % d < d) by (nonlinear_arith)
        requires
            d > 0,
    ;
    let q = x / d;
    if b > 0 {
        assert(b * (-q) == -(d * q)) by (nonlinear_arith)
            requires
                b == d,
        ;
    } else {
        assert(b * q == -(d * q) && b * (-q) == d * q) by (nonlinear_arith)
            requires
                b == -d,
        ;
    }
}

/// A quotient is no larger in magnitude than the dividend, and smaller
/// where the divisor has a magnitude of two or more.
pub proof fn lemma_quotient_magnitude(x: int, d: int)
    requires
        0 <= x,
        0 < d,
    ensures
        0 <= x / d <= x,
        d >= 2 && x > 0 ==> x / d < x,
{
    assert(0 <= x / d <= x && (d >= 2 && x > 0 ==> x / d < x)) by (nonlinear_arith)
        requires
            0 <= x,
            0 < d,
    ;
}

/// In a signed type that holds `-max - 1 ..= max`, a quotient rounded toward
/// zero fits unless the least value is divided by -1.
pub proof fn lemma_trunc_div_fits(a: int, b: int, max: int)
    requires
        -max - 1 <= a <= max,
        -max - 1 <= b <= max,
        b != 0,
    ensures
        a == -max - 1 && b == -1 ==> trunc_div(a, b) == max + 1,
        !(a == -max - 1 && b == -1) ==> -max - 1 <= trunc_div(a, b) <= max,
{
    lemma_quotient_magnitude(magnitude(a), magnitude(b));
}

/// A remainder is smaller in magnitude than the divisor, so it always fits.
pub proof fn lemma_trunc_rem_fits(a: int, b: int, max: int)
    requires
        -max - 1 <= a <= max,
        -max - 1 <= b <= max,
        b != 0,
    ensures
        -max - 1 <= trunc_rem(a, b) <= max,
{
    lemma_trunc_div_rem(a, b);
}

/// The same holds of the Euclidean quotient, whose remainder is never
/// negative.
pub proof fn lemma_euclid_div_fits(a: int, b: int, max: int)
    requires
        -max - 1 <= a <= max,
        -max - 1 <= b <= max,
        b != 0,
    ensures
        a == -max - 1 && b == -1 ==> a / b == max + 1,
        !(a == -max - 1 && b == -1) ==> -max - 1 <= a / b <= max,
{
    let q = a / b;
    let r = a % b;
    assert(b * q + r == a && 0 <= r < magnitude(b)) by (nonlinear_arith)
        requires
            b != 0,
            q == a / b,
            r == a % b,
    ;
    assert(magnitude(q) <= magnitude(a) && (magnitude(b) >= 2 && a != 0 ==> magnitude(q)
        < magnitude(a) || magnitude(a) == 1) && (b == 1 ==> q == a) && (b == -1 ==> q == -a))
        by (nonlinear_arith)
        requires
            b * q + r == a,
            0 <= r < magnitude(b),
            b != 0,
    ;
}

/// One more factor: `b` to the power `e + 1` is `b` to the power `e`, times
/// `b`.
pub proof fn lemma_pow_step(b: int, e: nat)
    ensures
        pow(b, e + 1) == pow(b, e) * b,
{
    reveal(pow);
    assert(b * pow(b, e) == pow(b, e) * b) by (nonlinear_arith);
}

/// A power of a negative number is the power of its magnitude, negated
/// where the exponent is odd.
pub proof fn lemma_pow_of_negated(m: int, e: nat)
    ensures
        pow(-m, e) == if e % 2 == 1 {
            -pow(m, e)
        } else {
            pow(m, e)
        },
    decreases e,
{
    reveal(pow);
    if e > 0 {
        let k = (e - 1) as nat;
        lemma_pow_of_negated(m, k);
        let p = pow(m, k);
        assert((-m) * p == -(m * p)) by (nonlinear_arith);
        assert((-m) * (-p) == m * p) by (nonlinear_arith);
    }
}

/// `base` to the power `exp` where that is at most `limit`, and `None`
/// where it is more.
pub fn pow_within(base: u128, exp: u32, limit: u128) -> (r: Option<u128>)
    ensures
        0 <= pow(base as int, exp as nat),
        pow(base as int, exp as nat) <= limit ==> r == Some(pow(base as int, exp as nat) as u128),
        pow(base as int, exp as nat) > limit ==> r is None,
{
    proof {
        reveal(pow);
        if base > 0 {
            lemma_pow_increases(base as nat, 0, exp as nat);
        } else if exp > 0 {
            lemma_pow_small_base(0, exp as nat);
        }
    }
    if limit == 0 {
        // only zero fits, and a power is zero only where the base is
        if base == 0 && exp > 0 {
            return Some(0);
        }
        proof {
            if base > 0 {
                lemma_pow_increases(base as nat, 0, exp as nat);
            }
        }
        return None;
    }
    if exp == 0 {
        return Some(1);
    }
    if base <= 1 {
        proof {
            lemma_pow_small_base(base as int, exp as nat);
        }
        return Some(base);
    }
    let mut acc: u128 = 1;
    let mut done: u32 = 0;
    while done < exp
        invariant
            2 <= base,
            1 <= limit,
            done <= exp,
            acc == pow(base as int, done as nat),
            1 <= acc <= limit,
        decreases exp - done,
    {
        proof {
            lemma_pow_step(base as int, done as nat);
            lemma_pow_increases(base as nat, (done + 1) as nat, exp as nat);
        }
        match acc.checked_mul(base) {
            None => {
                return None;
            },
            Some(next) => {
                if next > limit {
                    return None;
                }
                assert(acc * base >= 1) by (nonlinear_arith)
                    requires
                        acc >= 1,
                        base >= 2,
                ;
                acc = next;
                done = done + 1;
            },
        }
    }
    Some(acc)
}

/// Powers of zero and of one: zero to a positive power is zero, one to any
/// power is one.
pub proof fn lemma_pow_small_base(b: int, e: nat)
    requires
        0 <= b <= 1,
        e > 0,
    ensures
        pow(b, e) == b,
    decreases e,
{
    reveal_with_fuel(pow, 2);
    if e > 1 {
        lemma_pow_small_base(b, (e - 1) as nat);
        assert(b * b == b) by (nonlinear_arith)
            requires
                0 <= b <= 1,
        ;
    }
}

/// `base` to the power `exp` where that lies in `-max - 1 ..= max`, and
/// `None` where it does not.
pub fn signed_pow_within(base: i128, exp: u32, max: i128) -> (r: Option<i128>)
    requires
        0 <= max,
    ensures
        -max - 1 <= pow(base as int, exp as nat) <= max ==> r == Some(
            pow(base as int, exp as nat) as i128,
        ),
        !(-max - 1 <= pow(base as int, exp as nat) <= max) ==> r is None,
{
    if base >= 0 {
        proof {
            // a power of a number that is not negative is not negative
            if base > 0 {
                lemma_pow_increases(base as nat, 0, exp as nat);
            } else if exp > 0 {
                lemma_pow_small_base(0, exp as nat);
            }
            reveal(pow);
        }
        match pow_within(base as u128, exp, max as u128) {
            Some(v) => Some(v as i128),
            None => None,
        }
    } else {
        let size: u128 = if base == i128::MIN {
            0x8000_0000_0000_0000_0000_0000_0000_0000u128
        } else {
            (-base) as u128
        };
        proof {
            lemma_pow_of_negated(size as int, exp as nat);
            lemma_pow_increases(size as nat, 0, exp as nat);
            reveal(pow);
        }
        if exp % 2 == 1 {
            // the power is negative: its magnitude may be one more than `max`
            match pow_within(size, exp, max as u128 + 1) {
                Some(v) => {
                    if v == 0x8000_0000_0000_0000_0000_0000_0000_0000u128 {
                        Some(i128::MIN)
                    } else {
                        Some(-(v as i128))
                    }
                },
                None => None,
            }
        } else {
            match pow_within(size, exp, max as u128) {
                Some(v) => Some(v as i128),
                None => None,
            }
        }
    }
}

} // verus!
