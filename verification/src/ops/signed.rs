//! The checked operations on the signed integer types.

use crate::decimal::signed_decimal;
use crate::ops::arith::{
    lemma_euclid_div_fits, lemma_trunc_div_fits, lemma_trunc_rem_fits, signed_pow_within,
};
use crate::ops::{
    ArithmeticTryOps, BigShiftError, DivisionByZeroError, Integer, OverflowError, TypeName,
};
use vstd::prelude::*;

verus! {

impl TypeName for i8 {
    open spec fn name_spec() -> Seq<char> {
        "i8"@
    }

    fn name() -> (text: &'static str) {
        "i8"
    }
}

impl Integer for i8 {
    open spec fn value(self) -> int {
        self as int
    }

    open spec fn min_value() -> int {
        i8::MIN as int
    }

    open spec fn max_value() -> int {
        i8::MAX as int
    }

    open spec fn bits() -> nat {
        i8::BITS as nat
    }

    proof fn lemma_value_in_range(self) {
    }

    proof fn lemma_value_is_injective(self, other: Self) {
    }

    fn to_decimal(self) -> (text: String) {
        signed_decimal(self as i128)
    }
}

impl ArithmeticTryOps for i8 {
    open spec fn shl_spec(self, amount: u32) -> i8 {
        self << amount
    }

    open spec fn shr_spec(self, amount: u32) -> i8 {
        self >> amount
    }

    fn try_add(self, other: i8) -> (outcome: Result<i8, OverflowError<i8, i8>>) {
        match self.checked_add(other) {
            Some(sum) => Ok(sum),
            None => Err(OverflowError::new(self, "+", other)),
        }
    }

    fn try_sub(self, other: i8) -> (outcome: Result<i8, OverflowError<i8, i8>>) {
        match self.checked_sub(other) {
            Some(difference) => Ok(difference),
            None => Err(OverflowError::new(self, "-", other)),
        }
    }

    fn try_mul(self, other: i8) -> (outcome: Result<i8, OverflowError<i8, i8>>) {
        match self.checked_mul(other) {
            Some(product) => Ok(product),
            None => Err(OverflowError::new(self, "*", other)),
        }
    }

    fn try_div(self, other: i8) -> (outcome: Result<i8, DivisionByZeroError<i8>>) {
        proof {
            if other != 0 {
                lemma_trunc_div_fits(self as int, other as int, i8::MAX as int);
            }
        }
        match self.checked_div(other) {
            Some(quotient) => Ok(quotient),
            None => Err(DivisionByZeroError::new(self)),
        }
    }

    fn try_div_euclid(self, other: i8) -> (outcome: Result<i8, DivisionByZeroError<i8>>) {
        proof {
            if other != 0 {
                lemma_euclid_div_fits(self as int, other as int, i8::MAX as int);
            }
        }
        match self.checked_div_euclid(other) {
            Some(quotient) => Ok(quotient),
            None => Err(DivisionByZeroError::new(self)),
        }
    }

    fn try_rem(self, other: i8) -> (outcome: Result<i8, DivisionByZeroError<i8>>) {
        proof {
            if other != 0 {
                lemma_trunc_rem_fits(self as int, other as int, i8::MAX as int);
            }
        }
        match self.checked_rem(other) {
            Some(remainder) => Ok(remainder),
            None => Err(DivisionByZeroError::new(self)),
        }
    }

    fn try_rem_euclid(self, other: i8) -> (outcome: Result<i8, DivisionByZeroError<i8>>) {
        match self.checked_rem_euclid(other) {
            Some(remainder) => Ok(remainder),
            None => Err(DivisionByZeroError::new(self)),
        }
    }

    fn try_pow(self, other: u32) -> (outcome: Result<i8, OverflowError<i8, u32>>) {
        match signed_pow_within(self as i128, other, i8::MAX as i128) {
            Some(power) => Ok(power as i8),
            None => Err(OverflowError::new(self, "**", other)),
        }
    }

    fn try_shl(self, other: u32) -> (outcome: Result<i8, BigShiftError<i8>>) {
        if other < i8::BITS {
            Ok(self << other)
        } else {
            Err(BigShiftError::new(self, "<<", other))
        }
    }

    fn try_shr(self, other: u32) -> (outcome: Result<i8, BigShiftError<i8>>) {
        if other < i8::BITS {
            Ok(self >> other)
        } else {
            Err(BigShiftError::new(self, ">>", other))
        }
    }
}

impl TypeName for i16 {
    open spec fn name_spec() -> Seq<char> {
        "i16"@
    }

    fn name() -> (text: &'static str) {
        "i16"
    }
}

impl Integer for i16 {
    open spec fn value(self) -> int {
        self as int
    }

    open spec fn min_value() -> int {
        i16::MIN as int
    }

    open spec fn max_value() -> int {
        i16::MAX as int
    }

    open spec fn bits() -> nat {
        i16::BITS as nat
    }

    proof fn lemma_value_in_range(self) {
    }

    proof fn lemma_value_is_injective(self, other: Self) {
    }

    fn to_decimal(self) -> (text: String) {
        signed_decimal(self as i128)
    }
}

impl ArithmeticTryOps for i16 {
    open spec fn shl_spec(self, amount: u32) -> i16 {
        self << amount
    }

    open spec fn shr_spec(self, amount: u32) -> i16 {
        self >> amount
    }

    fn try_add(self, other: i16) -> (outcome: Result<i16, OverflowError<i16, i16>>) {
        match self.checked_add(other) {
            Some(sum) => Ok(sum),
            None => Err(OverflowError::new(self, "+", other)),
        }
    }

    fn try_sub(self, other: i16) -> (outcome: Result<i16, OverflowError<i16, i16>>) {
        match self.checked_sub(other) {
            Some(difference) => Ok(difference),
            None => Err(OverflowError::new(self, "-", other)),
        }
    }

    fn try_mul(self, other: i16) -> (outcome: Result<i16, OverflowError<i16, i16>>) {
        match self.checked_mul(other) {
            Some(product) => Ok(product),
            None => Err(OverflowError::new(self, "*", other)),
        }
    }

    fn try_div(self, other: i16) -> (outcome: Result<i16, DivisionByZeroError<i16>>) {
        proof {
            if other != 0 {
                lemma_trunc_div_fits(self as int, other as int, i16::MAX as int);
            }
        }
        match self.checked_div(other) {
            Some(quotient) => Ok(quotient),
            None => Err(DivisionByZeroError::new(self)),
        }
    }

    fn try_div_euclid(self, other: i16) -> (outcome: Result<i16, DivisionByZeroError<i16>>) {
        proof {
            if other != 0 {
                lemma_euclid_div_fits(self as int, other as int, i16::MAX as int);
            }
        }
        match self.checked_div_euclid(other) {
            Some(quotient) => Ok(quotient),
            None => Err(DivisionByZeroError::new(self)),
        }
    }

    fn try_rem(self, other: i16) -> (outcome: Result<i16, DivisionByZeroError<i16>>) {
        proof {
            if other != 0 {
                lemma_trunc_rem_fits(self as int, other as int, i16::MAX as int);
            }
        }
        match self.checked_rem(other) {
            Some(remainder) => Ok(remainder),
            None => Err(DivisionByZeroError::new(self)),
        }
    }

    fn try_rem_euclid(self, other: i16) -> (outcome: Result<i16, DivisionByZeroError<i16>>) {
        match self.checked_rem_euclid(other) {
            Some(remainder) => Ok(remainder),
            None => Err(DivisionByZeroError::new(self)),
        }
    }

    fn try_pow(self, other: u32) -> (outcome: Result<i16, OverflowError<i16, u32>>) {
        match signed_pow_within(self as i128, other, i16::MAX as i128) {
            Some(power) => Ok(power as i16),
            None => Err(OverflowError::new(self, "**", other)),
        }
    }

    fn try_shl(self, other: u32) -> (outcome: Result<i16, BigShiftError<i16>>) {
        if other < i16::BITS {
            Ok(self << other)
        } else {
            Err(BigShiftError::new(self, "<<", other))
        }
    }

    fn try_shr(self, other: u32) -> (outcome: Result<i16, BigShiftError<i16>>) {
        if other < i16::BITS {
            Ok(self >> other)
        } else {
            Err(BigShiftError::new(self, ">>", other))
        }
    }
}

impl TypeName for i32 {
    open spec fn name_spec() -> Seq<char> {
        "i32"@
    }

    fn name() -> (text: &'static str) {
        "i32"
    }
}

impl Integer for i32 {
    open spec fn value(self) -> int {
        self as int
    }

    open spec fn min_value() -> int {
        i32::MIN as int
    }

    open spec fn max_value() -> int {
        i32::MAX as int
    }

    open spec fn bits() -> nat {
        i32::BITS as nat
    }

    proof fn lemma_value_in_range(self) {
    }

    proof fn lemma_value_is_injective(self, other: Self) {
    }

    fn to_decimal(self) -> (text: String) {
        signed_decimal(self as i128)
    }
}

impl ArithmeticTryOps for i32 {
    open spec fn shl_spec(self, amount: u32) -> i32 {
        self << amount
    }

    open spec fn shr_spec(self, amount: u32) -> i32 {
        self >> amount
    }

    fn try_add(self, other: i32) -> (outcome: Result<i32, OverflowError<i32, i32>>) {
        match self.checked_add(other) {
            Some(sum) => Ok(sum),
            None => Err(OverflowError::new(self, "+", other)),
        }
    }

    fn try_sub(self, other: i32) -> (outcome: Result<i32, OverflowError<i32, i32>>) {
        match self.checked_sub(other) {
            Some(difference) => Ok(difference),
            None => Err(OverflowError::new(self, "-", other)),
        }
    }

    fn try_mul(self, other: i32) -> (outcome: Result<i32, OverflowError<i32, i32>>) {
        match self.checked_mul(other) {
            Some(product) => Ok(product),
            None => Err(OverflowError::new(self, "*", other)),
        }
    }

    fn try_div(self, other: i32) -> (outcome: Result<i32, DivisionByZeroError<i32>>) {
        proof {
            if other != 0 {
                lemma_trunc_div_fits(self as int, other as int, i32::MAX as int);
            }
        }
        match self.checked_div(other) {
            Some(quotient) => Ok(quotient),
            None => Err(DivisionByZeroError::new(self)),
        }
    }

    fn try_div_euclid(self, other: i32) -> (outcome: Result<i32, DivisionByZeroError<i32>>) {
        proof {
            if other != 0 {
                lemma_euclid_div_fits(self as int, other as int, i32::MAX as int);
            }
        }
        match self.checked_div_euclid(other) {
            Some(quotient) => Ok(quotient),
            None => Err(DivisionByZeroError::new(self)),
        }
    }

    fn try_rem(self, other: i32) -> (outcome: Result<i32, DivisionByZeroError<i32>>) {
        proof {
            if other != 0 {
                lemma_trunc_rem_fits(self as int, other as int, i32::MAX as int);
            }
        }
        match self.checked_rem(other) {
            Some(remainder) => Ok(remainder),
            None => Err(DivisionByZeroError::new(self)),
        }
    }

    fn try_rem_euclid(self, other: i32) -> (outcome: Result<i32, DivisionByZeroError<i32>>) {
        match self.checked_rem_euclid(other) {
            Some(remainder) => Ok(remainder),
            None => Err(DivisionByZeroError::new(self)),
        }
    }

    fn try_pow(self, other: u32) -> (outcome: Result<i32, OverflowError<i32, u32>>) {
        match signed_pow_within(self as i128, other, i32::MAX as i128) {
            Some(power) => Ok(power as i32),
            None => Err(OverflowError::new(self, "**", other)),
        }
    }

    fn try_shl(self, other: u32) -> (outcome: Result<i32, BigShiftError<i32>>) {
        if other < i32::BITS {
            Ok(self << other)
        } else {
            Err(BigShiftError::new(self, "<<", other))
        }
    }

    fn try_shr(self, other: u32) -> (outcome: Result<i32, BigShiftError<i32>>) {
        if other < i32::BITS {
            Ok(self >> other)
        } else {
            Err(BigShiftError::new(self, ">>", other))
        }
    }
}

impl TypeName for i64 {
    open spec fn name_spec() -> Seq<char> {
        "i64"@
    }

    fn name() -> (text: &'static str) {
        "i64"
    }
}

impl Integer for i64 {
    open spec fn value(self) -> int {
        self as int
    }

    open spec fn min_value() -> int {
        i64::MIN as int
    }

    open spec fn max_value() -> int {
        i64::MAX as int
    }

    open spec fn bits() -> nat {
        i64::BITS as nat
    }

    proof fn lemma_value_in_range(self) {
    }

    proof fn lemma_value_is_injective(self, other: Self) {
    }

    fn to_decimal(self) -> (text: String) {
        signed_decimal(self as i128)
    }
}

impl ArithmeticTryOps for i64 {
    open spec fn shl_spec(self, amount: u32) -> i64 {
        self << amount
    }

    open spec fn shr_spec(self, amount: u32) -> i64 {
        self >> amount
    }

    fn try_add(self, other: i64) -> (outcome: Result<i64, OverflowError<i64, i64>>) {
        match self.checked_add(other) {
            Some(sum) => Ok(sum),
            None => Err(OverflowError::new(self, "+", other)),
        }
    }

    fn try_sub(self, other: i64) -> (outcome: Result<i64, OverflowError<i64, i64>>) {
        match self.checked_sub(other) {
            Some(difference) => Ok(difference),
            None => Err(OverflowError::new(self, "-", other)),
        }
    }

    fn try_mul(self, other: i64) -> (outcome: Result<i64, OverflowError<i64, i64>>) {
        match self.checked_mul(other) {
            Some(product) => Ok(product),
            None => Err(OverflowError::new(self, "*", other)),
        }
    }

    fn try_div(self, other: i64) -> (outcome: Result<i64, DivisionByZeroError<i64>>) {
        proof {
            if other != 0 {
                lemma_trunc_div_fits(self as int, other as int, i64::MAX as int);
            }
        }
        match self.checked_div(other) {
            Some(quotient) => Ok(quotient),
            None => Err(DivisionByZeroError::new(self)),
        }
    }

    fn try_div_euclid(self, other: i64) -> (outcome: Result<i64, DivisionByZeroError<i64>>) {
        proof {
            if other != 0 {
                lemma_euclid_div_fits(self as int, other as int, i64::MAX as int);
            }
        }
        match self.checked_div_euclid(other) {
            Some(quotient) => Ok(quotient),
            None => Err(DivisionByZeroError::new(self)),
        }
    }

    fn try_rem(self, other: i64) -> (outcome: Result<i64, DivisionByZeroError<i64>>) {
        proof {
            if other != 0 {
                lemma_trunc_rem_fits(self as int, other as int, i64::MAX as int);
            }
        }
        match self.checked_rem(other) {
            Some(remainder) => Ok(remainder),
            None => Err(DivisionByZeroError::new(self)),
        }
    }

    fn try_rem_euclid(self, other: i64) -> (outcome: Result<i64, DivisionByZeroError<i64>>) {
        match self.checked_rem_euclid(other) {
            Some(remainder) => Ok(remainder),
            None => Err(DivisionByZeroError::new(self)),
        }
    }

    fn try_pow(self, other: u32) -> (outcome: Result<i64, OverflowError<i64, u32>>) {
        match signed_pow_within(self as i128, other, i64::MAX as i128) {
            Some(power) => Ok(power as i64),
            None => Err(OverflowError::new(self, "**", other)),
        }
    }

    fn try_shl(self, other: u32) -> (outcome: Result<i64, BigShiftError<i64>>) {
        if other < i64::BITS {
            Ok(self << other)
        } else {
            Err(BigShiftError::new(self, "<<", other))
        }
    }

    fn try_shr(self, other: u32) -> (outcome: Result<i64, BigShiftError<i64>>) {
        if other < i64::BITS {
            Ok(self >> other)
        } else {
            Err(BigShiftError::new(self, ">>", other))
        }
    }
}

impl TypeName for i128 {
    open spec fn name_spec() -> Seq<char> {
        "i128"@
    }

    fn name() -> (text: &'static str) {
        "i128"
    }
}

impl Integer for i128 {
    open spec fn value(self) -> int {
        self as int
    }

    open spec fn min_value() -> int {
        i128::MIN as int
    }

    open spec fn max_value() -> int {
        i128::MAX as int
    }

    open spec fn bits() -> nat {
        i128::BITS as nat
    }

    proof fn lemma_value_in_range(self) {
    }

    proof fn lemma_value_is_injective(self, other: Self) {
    }

    fn to_decimal(self) -> (text: String) {
        signed_decimal(self)
    }
}

impl ArithmeticTryOps for i128 {
    open spec fn shl_spec(self, amount: u32) -> i128 {
        self << amount
    }

    open spec fn shr_spec(self, amount: u32) -> i128 {
        self >> amount
    }

    fn try_add(self, other: i128) -> (outcome: Result<i128, OverflowError<i128, i128>>) {
        match self.checked_add(other) {
            Some(sum) => Ok(sum),
            None => Err(OverflowError::new(self, "+", other)),
        }
    }

    fn try_sub(self, other: i128) -> (outcome: Result<i128, OverflowError<i128, i128>>) {
        match self.checked_sub(other) {
            Some(difference) => Ok(difference),
            None => Err(OverflowError::new(self, "-", other)),
        }
    }

    fn try_mul(self, other: i128) -> (outcome: Result<i128, OverflowError<i128, i128>>) {
        match self.checked_mul(other) {
            Some(product) => Ok(product),
            None => Err(OverflowError::new(self, "*", other)),
        }
    }

    fn try_div(self, other: i128) -> (outcome: Result<i128, DivisionByZeroError<i128>>) {
        proof {
            if other != 0 {
                lemma_trunc_div_fits(self as int, other as int, i128::MAX as int);
            }
        }
        match self.checked_div(other) {
            Some(quotient) => Ok(quotient),
            None => Err(DivisionByZeroError::new(self)),
        }
    }

    fn try_div_euclid(self, other: i128) -> (outcome: Result<i128, DivisionByZeroError<i128>>) {
        proof {
            if other != 0 {
                lemma_euclid_div_fits(self as int, other as int, i128::MAX as int);
            }
        }
        match self.checked_div_euclid(other) {
            Some(quotient) => Ok(quotient),
            None => Err(DivisionByZeroError::new(self)),
        }
    }

    fn try_rem(self, other: i128) -> (outcome: Result<i128, DivisionByZeroError<i128>>) {
        proof {
            if other != 0 {
                lemma_trunc_rem_fits(self as int, other as int, i128::MAX as int);
            }
        }
        match self.checked_rem(other) {
            Some(remainder) => Ok(remainder),
            None => Err(DivisionByZeroError::new(self)),
        }
    }

    fn try_rem_euclid(self, other: i128) -> (outcome: Result<i128, DivisionByZeroError<i128>>) {
        match self.checked_rem_euclid(other) {
            Some(remainder) => Ok(remainder),
            None => Err(DivisionByZeroError::new(self)),
        }
    }

    fn try_pow(self, other: u32) -> (outcome: Result<i128, OverflowError<i128, u32>>) {
        match signed_pow_within(self, other, i128::MAX) {
            Some(power) => Ok(power),
            None => Err(OverflowError::new(self, "**", other)),
        }
    }

    fn try_shl(self, other: u32) -> (outcome: Result<i128, BigShiftError<i128>>) {
        if other < i128::BITS {
            Ok(self << other)
        } else {
            Err(BigShiftError::new(self, "<<", other))
        }
    }

    fn try_shr(self, other: u32) -> (outcome: Result<i128, BigShiftError<i128>>) {
        if other < i128::BITS {
            Ok(self >> other)
        } else {
            Err(BigShiftError::new(self, ">>", other))
        }
    }
}

impl TypeName for isize {
    open spec fn name_spec() -> Seq<char> {
        "isize"@
    }

    fn name() -> (text: &'static str) {
        "isize"
    }
}

impl Integer for isize {
    open spec fn value(self) -> int {
        self as int
    }

    open spec fn min_value() -> int {
        isize::MIN as int
    }

    open spec fn max_value() -> int {
        isize::MAX as int
    }

    open spec fn bits() -> nat {
        isize::BITS as nat
    }

    proof fn lemma_value_in_range(self) {
    }

    proof fn lemma_value_is_injective(self, other: Self) {
    }

    fn to_decimal(self) -> (text: String) {
        signed_decimal(self as i128)
    }
}

impl ArithmeticTryOps for isize {
    open spec fn shl_spec(self, amount: u32) -> isize {
        self << amount
    }

    open spec fn shr_spec(self, amount: u32) -> isize {
        self >> amount
    }

    fn try_add(self, other: isize) -> (outcome: Result<isize, OverflowError<isize, isize>>) {
        match self.checked_add(other) {
            Some(sum) => Ok(sum),
            None => Err(OverflowError::new(self, "+", other)),
        }
    }

    fn try_sub(self, other: isize) -> (outcome: Result<isize, OverflowError<isize, isize>>) {
        match self.checked_sub(other) {
            Some(difference) => Ok(difference),
            None => Err(OverflowError::new(self, "-", other)),
        }
    }

    fn try_mul(self, other: isize) -> (outcome: Result<isize, OverflowError<isize, isize>>) {
        match self.checked_mul(other) {
            Some(product) => Ok(product),
            None => Err(OverflowError::new(self, "*", other)),
        }
    }

    fn try_div(self, other: isize) -> (outcome: Result<isize, DivisionByZeroError<isize>>) {
        proof {
            if other != 0 {
                lemma_trunc_div_fits(self as int, other as int, isize::MAX as int);
            }
        }
        match self.checked_div(other) {
            Some(quotient) => Ok(quotient),
            None => Err(DivisionByZeroError::new(self)),
        }
    }

    fn try_div_euclid(self, other: isize) -> (outcome: Result<isize, DivisionByZeroError<isize>>) {
        proof {
            if other != 0 {
                lemma_euclid_div_fits(self as int, other as int, isize::MAX as int);
            }
        }
        match self.checked_div_euclid(other) {
            Some(quotient) => Ok(quotient),
            None => Err(DivisionByZeroError::new(self)),
        }
    }

    fn try_rem(self, other: isize) -> (outcome: Result<isize, DivisionByZeroError<isize>>) {
        proof {
            if other != 0 {
                lemma_trunc_rem_fits(self as int, other as int, isize::MAX as int);
            }
        }
        match self.checked_rem(other) {
            Some(remainder) => Ok(remainder),
            None => Err(DivisionByZeroError::new(self)),
        }
    }

    fn try_rem_euclid(self, other: isize) -> (outcome: Result<isize, DivisionByZeroError<isize>>) {
        match self.checked_rem_euclid(other) {
            Some(remainder) => Ok(remainder),
            None => Err(DivisionByZeroError::new(self)),
        }
    }

    fn try_pow(self, other: u32) -> (outcome: Result<isize, OverflowError<isize, u32>>) {
        match signed_pow_within(self as i128, other, isize::MAX as i128) {
            Some(power) => Ok(power as isize),
            None => Err(OverflowError::new(self, "**", other)),
        }
    }

    fn try_shl(self, other: u32) -> (outcome: Result<isize, BigShiftError<isize>>) {
        if other < isize::BITS {
            Ok(self << other)
        } else {
            Err(BigShiftError::new(self, "<<", other))
        }
    }

    fn try_shr(self, other: u32) -> (outcome: Result<isize, BigShiftError<isize>>) {
        if other < isize::BITS {
            Ok(self >> other)
        } else {
            Err(BigShiftError::new(self, ">>", other))
        }
    }
}

} // verus!
