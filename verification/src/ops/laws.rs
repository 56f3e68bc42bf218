//! What holds of the checked operations, whatever the type and the
//! operands.

use crate::ops::arith::trunc_div;
use crate::ops::{
    division_outcome, fits, overflow_outcome, shift_outcome, BigShiftError, DivisionByZeroError,
    Integer, OverflowError,
};
use vstd::prelude::*;

verus! {

/// An addition, subtraction, multiplication or power succeeds if and only
/// if its exact result is a value of the left operand's type, and then it
/// returns that value and no other.
pub proof fn lemma_succeeds_iff_fits<L: Integer, R: Integer>(
    outcome: Result<L, OverflowError<L, R>>,
    left: L,
    op: Seq<char>,
    right: R,
    exact: int,
)
    requires
        overflow_outcome(outcome, left, op, right, exact),
    ensures
        outcome is Ok <==> fits::<L>(exact),
        forall|v: L| v.value() == exact ==> outcome == Ok::<L, OverflowError<L, R>>(v),
{
    assert forall|v: L| v.value() == exact implies outcome == Ok::<L, OverflowError<L, R>>(v) by {
        v.lemma_value_in_range();
        v.lemma_value_is_injective(outcome->Ok_0);
    }
}

/// The sum of two `u8` values is returned if and only if it is at most 255.
pub proof fn lemma_u8_add(a: u8, b: u8, outcome: Result<u8, OverflowError<u8, u8>>)
    requires
        overflow_outcome(outcome, a, "+"@, b, a.value() + b.value()),
    ensures
        outcome is Ok <==> a + b <= 255,
        a + b <= 255 ==> outcome == Ok::<u8, OverflowError<u8, u8>>((a + b) as u8),
        a + b > 255 ==> (outcome matches Err(e) && e.left() == a && e.op() == "+"@ && e.right()
            == b),
{
}

/// Division by zero fails, whatever the dividend, and the error holds the
/// dividend.
pub proof fn lemma_division_by_zero_fails<T: Integer>(
    outcome: Result<T, DivisionByZeroError<T>>,
    dividend: T,
    exact: int,
)
    requires
        division_outcome(outcome, dividend, 0, exact),
    ensures
        outcome matches Err(e) && e.dividend() == dividend,
{
}

/// Division by a divisor other than zero returns the quotient rounded
/// toward zero, unless the least value of the type is divided by -1.
pub proof fn lemma_division_rounds_toward_zero<T: Integer>(
    outcome: Result<T, DivisionByZeroError<T>>,
    dividend: T,
    divisor: T,
)
    requires
        division_outcome(
            outcome,
            dividend,
            divisor.value(),
            trunc_div(dividend.value(), divisor.value()),
        ),
        divisor.value() != 0,
        !(dividend.value() == T::min_value() && divisor.value() == -1),
    ensures
        outcome matches Ok(quotient) && quotient.value() == trunc_div(
            dividend.value(),
            divisor.value(),
        ),
{
}

/// The least value of a type, divided by -1, is an error: the quotient
/// would be one more than the greatest value.
pub proof fn lemma_min_by_minus_one_fails<T: Integer>(
    outcome: Result<T, DivisionByZeroError<T>>,
    dividend: T,
    exact: int,
)
    requires
        division_outcome(outcome, dividend, -1, exact),
        dividend.value() == T::min_value(),
    ensures
        outcome matches Err(e) && e.dividend() == dividend,
{
}

/// A shift fails if and only if the amount is the width of the type or
/// more. Below the width it returns what the plain shift gives.
pub proof fn lemma_shift_fails_iff_too_far<T: Integer>(
    outcome: Result<T, BigShiftError<T>>,
    left: T,
    op: Seq<char>,
    amount: u32,
    shifted: T,
)
    requires
        shift_outcome(outcome, left, op, amount, shifted),
    ensures
        outcome is Err <==> amount >= T::bits(),
        amount < T::bits() ==> outcome == Ok::<T, BigShiftError<T>>(shifted),
        amount >= T::bits() ==> (outcome matches Err(e) && e.left() == left && e.op() == op
            && e.right() == amount),
{
}

} // verus!
