//! Arithmetic that reports overflow, division by zero and oversized shifts
//! as errors.

pub mod arith;
pub mod laws;
pub mod signed;
pub mod unsigned;

use crate::decimal::decimal;
use crate::error::{BoxedError, CausalError};
use crate::ops::arith::{trunc_div, trunc_rem};
use vstd::arithmetic::power::pow;
use vstd::prelude::*;
use vstd::string::*;

verus! {

/// A type that has a name.
pub trait TypeName {
    spec fn name_spec() -> Seq<char>;

    /// The name of the type, as it is written in a program.
    fn name() -> (text: &'static str)
        ensures
            text@ == Self::name_spec(),
    ;
}

/// An integer type of a fixed width: the number that a value of it stands
/// for, the least and the greatest of those numbers, and the width in bits.
pub trait Integer: Copy + TypeName {
    spec fn value(self) -> int;

    spec fn min_value() -> int;

    spec fn max_value() -> int;

    spec fn bits() -> nat;

    /// Every value stands for a number within the type's range.
    proof fn lemma_value_in_range(self)
        ensures
            Self::min_value() <= self.value() <= Self::max_value(),
    ;

    /// No two values stand for the same number.
    proof fn lemma_value_is_injective(self, other: Self)
        requires
            self.value() == other.value(),
        ensures
            self == other,
    ;

    /// The value in decimal.
    fn to_decimal(self) -> (text: String)
        ensures
            text@ == decimal(self.value()),
    ;
}

/// Whether the type `T` has a value that stands for `v`.
pub open spec fn fits<T: Integer>(v: int) -> bool {
    T::min_value() <= v <= T::max_value()
}

/// An addition, subtraction, multiplication or power whose exact result the
/// type of the left operand cannot hold.
#[derive(Debug)]
pub struct OverflowError<L: Integer, R: Integer> {
    left: L,
    op: &'static str,
    right: R,
}

/// A division or remainder that has no result in the dividend's type: the
/// divisor is zero, or the least value of a signed type is divided by -1.
#[derive(Debug)]
pub struct DivisionByZeroError<T: Integer>(T);

/// A shift by as many bits as the left operand has, or more.
#[derive(Debug)]
pub struct BigShiftError<L: Integer> {
    left: L,
    op: &'static str,
    right: u32,
}

/// The message of an operation that overflowed.
pub open spec fn overflow_text(left: int, op: Seq<char>, right: int) -> Seq<char> {
    "operation "@ + decimal(left) + " "@ + op + " "@ + decimal(right) + " overflowed"@
}

/// The message of a division that has no result.
pub open spec fn division_text(dividend: int) -> Seq<char> {
    "attempted to divide "@ + decimal(dividend) + " by zero"@
}

/// The message of a shift by too many bits.
pub open spec fn shift_text(
    left: int,
    op: Seq<char>,
    right: int,
    type_text: Seq<char>,
) -> Seq<char> {
    "operation "@ + decimal(left) + " "@ + op + " "@ + decimal(right)
        + " attempted to shift too much (the type of LHS is "@ + type_text + ")"@
}

impl<L: Integer, R: Integer> OverflowError<L, R> {
    pub closed spec fn left(&self) -> L {
        self.left
    }

    pub closed spec fn op(&self) -> Seq<char> {
        self.op@
    }

    pub closed spec fn right(&self) -> R {
        self.right
    }

    pub(crate) fn new(left: L, op: &'static str, right: R) -> (error: Self)
        ensures
            error.left() == left,
            error.op() == op@,
            error.right() == right,
    {
        OverflowError { left, op, right }
    }
}

impl<L: Integer, R: Integer> CausalError for OverflowError<L, R> {
    open spec fn chain(&self) -> Seq<Seq<char>> {
        seq![overflow_text(self.left().value(), self.op(), self.right().value())]
    }

    fn message(&self) -> (text: String) {
        let mut text = "operation ".to_owned();
        text.append(self.left.to_decimal().as_str());
        text.append(" ");
        text.append(self.op);
        text.append(" ");
        text.append(self.right.to_decimal().as_str());
        text.append(" overflowed");
        text
    }

    fn source(&self) -> (cause: Option<&BoxedError>) {
        None
    }
}

impl<T: Integer> DivisionByZeroError<T> {
    pub closed spec fn dividend(&self) -> T {
        self.0
    }

    pub(crate) fn new(dividend: T) -> (error: Self)
        ensures
            error.dividend() == dividend,
    {
        DivisionByZeroError(dividend)
    }
}

impl<T: Integer> CausalError for DivisionByZeroError<T> {
    open spec fn chain(&self) -> Seq<Seq<char>> {
        seq![division_text(self.dividend().value())]
    }

    fn message(&self) -> (text: String) {
        let mut text = "attempted to divide ".to_owned();
        text.append(self.0.to_decimal().as_str());
        text.append(" by zero");
        text
    }

    fn source(&self) -> (cause: Option<&BoxedError>) {
        None
    }
}

impl<L: Integer> BigShiftError<L> {
    pub closed spec fn left(&self) -> L {
        self.left
    }

    pub closed spec fn op(&self) -> Seq<char> {
        self.op@
    }

    pub closed spec fn right(&self) -> u32 {
        self.right
    }

    pub(crate) fn new(left: L, op: &'static str, right: u32) -> (error: Self)
        ensures
            error.left() == left,
            error.op() == op@,
            error.right() == right,
    {
        BigShiftError { left, op, right }
    }
}

impl<L: Integer> CausalError for BigShiftError<L> {
    open spec fn chain(&self) -> Seq<Seq<char>> {
        seq![shift_text(self.left().value(), self.op(), self.right() as int, L::name_spec())]
    }

    fn message(&self) -> (text: String) {
        let mut text = "operation ".to_owned();
        text.append(self.left.to_decimal().as_str());
        text.append(" ");
        text.append(self.op);
        text.append(" ");
        text.append(self.right.to_decimal().as_str());
        text.append(" attempted to shift too much (the type of LHS is ");
        text.append(L::name());
        text.append(")");
        text
    }

    fn source(&self) -> (cause: Option<&BoxedError>) {
        None
    }
}

/// What a checked operation with the exact result `exact` returns: the
/// value that stands for `exact` where the type has one, else the error
/// that names the operands and the operator.
pub open spec fn overflow_outcome<L: Integer, R: Integer>(
    outcome: Result<L, OverflowError<L, R>>,
    left: L,
    op: Seq<char>,
    right: R,
    exact: int,
) -> bool {
    match outcome {
        Ok(v) => fits::<L>(exact) && v.value() == exact,
        Err(e) => !fits::<L>(exact) && e.left() == left && e.op() == op && e.right() == right,
    }
}

/// Whether `dividend` has no quotient by `divisor` in `T`: the divisor is
/// zero, or the least value of a signed type is divided by -1.
pub open spec fn division_fails<T: Integer>(dividend: int, divisor: int) -> bool {
    divisor == 0 || (dividend == T::min_value() && divisor == -1)
}

/// What a checked division or remainder with the result `exact` returns.
pub open spec fn division_outcome<T: Integer>(
    outcome: Result<T, DivisionByZeroError<T>>,
    dividend: T,
    divisor: int,
    exact: int,
) -> bool {
    match outcome {
        Ok(v) => !division_fails::<T>(dividend.value(), divisor) && v.value() == exact,
        Err(e) => division_fails::<T>(dividend.value(), divisor) && e.dividend() == dividend,
    }
}

/// What a checked shift by `amount` returns, where `shifted` is the result
/// of the plain shift.
pub open spec fn shift_outcome<T: Integer>(
    outcome: Result<T, BigShiftError<T>>,
    left: T,
    op: Seq<char>,
    amount: u32,
    shifted: T,
) -> bool {
    match outcome {
        Ok(v) => amount < T::bits() && v == shifted,
        Err(e) => amount >= T::bits() && e.left() == left && e.op() == op && e.right() == amount,
    }
}

/// Arithmetic like std's `checked_*` operations, with an error in place of
/// `None` that says what was attempted.
pub trait ArithmeticTryOps<RHS = Self>: Integer where RHS: Integer {
    /// `self` shifted left by `amount` bits, for `amount` below the width.
    spec fn shl_spec(self, amount: u32) -> Self;

    /// `self` shifted right by `amount` bits, for `amount` below the width.
    spec fn shr_spec(self, amount: u32) -> Self;

    fn try_add(self, other: RHS) -> (outcome: Result<Self, OverflowError<Self, RHS>>)
        ensures
            overflow_outcome(outcome, self, "+"@, other, self.value() + other.value()),
    ;

    fn try_sub(self, other: RHS) -> (outcome: Result<Self, OverflowError<Self, RHS>>)
        ensures
            overflow_outcome(outcome, self, "-"@, other, self.value() - other.value()),
    ;

    fn try_mul(self, other: RHS) -> (outcome: Result<Self, OverflowError<Self, RHS>>)
        ensures
            overflow_outcome(outcome, self, "*"@, other, self.value() * other.value()),
    ;

    /// Division that rounds toward zero.
    fn try_div(self, other: RHS) -> (outcome: Result<Self, DivisionByZeroError<Self>>)
        ensures
            division_outcome(
                outcome,
                self,
                other.value(),
                trunc_div(self.value(), other.value()),
            ),
    ;

    /// Division whose remainder is never negative.
    fn try_div_euclid(self, other: RHS) -> (outcome: Result<Self, DivisionByZeroError<Self>>)
        ensures
            division_outcome(outcome, self, other.value(), self.value() / other.value()),
    ;

    /// The remainder of the division that rounds toward zero.
    fn try_rem(self, other: RHS) -> (outcome: Result<Self, DivisionByZeroError<Self>>)
        ensures
            division_outcome(
                outcome,
                self,
                other.value(),
                trunc_rem(self.value(), other.value()),
            ),
    ;

    /// The remainder that is never negative.
    fn try_rem_euclid(self, other: RHS) -> (outcome: Result<Self, DivisionByZeroError<Self>>)
        ensures
            division_outcome(outcome, self, other.value(), self.value() % other.value()),
    ;

    /// `self` to the power `other`. It is written `**` in the error, so
    /// that it is not taken for exclusive or.
    fn try_pow(self, other: u32) -> (outcome: Result<Self, OverflowError<Self, u32>>)
        ensures
            overflow_outcome(outcome, self, "**"@, other, pow(self.value(), other as nat)),
    ;

    fn try_shl(self, other: u32) -> (outcome: Result<Self, BigShiftError<Self>>)
        ensures
            shift_outcome(outcome, self, "<<"@, other, self.shl_spec(other)),
    ;

    fn try_shr(self, other: u32) -> (outcome: Result<Self, BigShiftError<Self>>)
        ensures
            shift_outcome(outcome, self, ">>"@, other, self.shr_spec(other)),
    ;
}

} // verus!
