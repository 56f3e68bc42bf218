//! The checked operations on the unsigned integer types.

use crate::decimal::unsigned_decimal;
use crate::ops::arith::pow_within;
use crate::ops::{
    ArithmeticTryOps, BigShiftError, DivisionByZeroError, Integer, OverflowError, TypeName,
};
use vstd::prelude::*;

verus! {

impl TypeName for u8 {
    open spec fn name_spec() -> Seq<char> {
        "u8"@
    }

    fn name() -> (text: &'static str) {
        "u8"
    }
}

impl Integer for u8 {
    open spec fn value(self) -> int {
        self as int
    }

    open spec fn min_value() -> int {
        u8::MIN as int
    }

    open spec fn max_value() -> int {
        u8::MAX as int
    }

    open spec fn bits() -> nat {
        u8::BITS as nat
    }

    proof fn lemma_value_in_range(self) {
    }

    proof fn lemma_value_is_injective(self, other: Self) {
    }

    fn to_decimal(self) -> (text: String) {
        unsigned_decimal(self as u128)
    }
}

impl ArithmeticTryOps for u8 {
    open spec fn shl_spec(self, amount: u32) -> u8 {
        self << amount
    }

    open spec fn shr_spec(self, amount: u32) -> u8 {
        self >> amount
    }

    fn try_add(self, other: u8) -> (outcome: Result<u8, OverflowError<u8, u8>>) {
        match self.checked_add(other) {
            Some(sum) => Ok(sum),
            None => Err(OverflowError::new(self, "+", other)),
        }
    }

    fn try_sub(self, other: u8) -> (outcome: Result<u8, OverflowError<u8, u8>>) {
        match self.checked_sub(other) {
            Some(difference) => Ok(difference),
            None => Err(OverflowError::new(self, "-", other)),
        }
    }

    fn try_mul(self, other: u8) -> (outcome: Result<u8, OverflowError<u8, u8>>) {
        match self.checked_mul(other) {
            Some(product) => Ok(product),
            None => Err(OverflowError::new(self, "*", other)),
        }
    }

    fn try_div(self, other: u8) -> (outcome: Result<u8, DivisionByZeroError<u8>>) {
        match self.checked_div(other) {
            Some(quotient) => Ok(quotient),
            None => Err(DivisionByZeroError::new(self)),
        }
    }

    fn try_div_euclid(self, other: u8) -> (outcome: Result<u8, DivisionByZeroError<u8>>) {
        match self.checked_div_euclid(other) {
            Some(quotient) => Ok(quotient),
            None => Err(DivisionByZeroError::new(self)),
        }
    }

    fn try_rem(self, other: u8) -> (outcome: Result<u8, DivisionByZeroError<u8>>) {
        match self.checked_rem(other) {
            Some(remainder) => Ok(remainder),
            None => Err(DivisionByZeroError::new(self)),
        }
    }

    fn try_rem_euclid(self, other: u8) -> (outcome: Result<u8, DivisionByZeroError<u8>>) {
        match self.checked_rem_euclid(other) {
            Some(remainder) => Ok(remainder),
            None => Err(DivisionByZeroError::new(self)),
        }
    }

    fn try_pow(self, other: u32) -> (outcome: Result<u8, OverflowError<u8, u32>>) {
        match pow_within(self as u128, other, u8::MAX as u128) {
            Some(power) => Ok(power as u8),
            None => Err(OverflowError::new(self, "**", other)),
        }
    }

    fn try_shl(self, other: u32) -> (outcome: Result<u8, BigShiftError<u8>>) {
        if other < u8::BITS {
            Ok(self << other)
        } else {
            Err(BigShiftError::new(self, "<<", other))
        }
    }

    fn try_shr(self, other: u32) -> (outcome: Result<u8, BigShiftError<u8>>) {
        if other < u8::BITS {
            Ok(self >> other)
        } else {
            Err(BigShiftError::new(self, ">>", other))
        }
    }
}

impl TypeName for u16 {
    open spec fn name_spec() -> Seq<char> {
        "u16"@
    }

    fn name() -> (text: &'static str) {
        "u16"
    }
}

impl Integer for u16 {
    open spec fn value(self) -> int {
        self as int
    }

    open spec fn min_value() -> int {
        u16::MIN as int
    }

    open spec fn max_value() -> int {
        u16::MAX as int
    }

    open spec fn bits() -> nat {
        u16::BITS as nat
    }

    proof fn lemma_value_in_range(self) {
    }

    proof fn lemma_value_is_injective(self, other: Self) {
    }

    fn to_decimal(self) -> (text: String) {
        unsigned_decimal(self as u128)
    }
}

impl ArithmeticTryOps for u16 {
    open spec fn shl_spec(self, amount: u32) -> u16 {
        self << amount
    }

    open spec fn shr_spec(self, amount: u32) -> u16 {
        self >> amount
    }

    fn try_add(self, other: u16) -> (outcome: Result<u16, OverflowError<u16, u16>>) {
        match self.checked_add(other) {
            Some(sum) => Ok(sum),
            None => Err(OverflowError::new(self, "+", other)),
        }
    }

    fn try_sub(self, other: u16) -> (outcome: Result<u16, OverflowError<u16, u16>>) {
        match self.checked_sub(other) {
            Some(difference) => Ok(difference),
            None => Err(OverflowError::new(self, "-", other)),
        }
    }

    fn try_mul(self, other: u16) -> (outcome: Result<u16, OverflowError<u16, u16>>) {
        match self.checked_mul(other) {
            Some(product) => Ok(product),
            None => Err(OverflowError::new(self, "*", other)),
        }
    }

    fn try_div(self, other: u16) -> (outcome: Result<u16, DivisionByZeroError<u16>>) {
        match self.checked_div(other) {
            Some(quotient) => Ok(quotient),
            None => Err(DivisionByZeroError::new(self)),
        }
    }

    fn try_div_euclid(self, other: u16) -> (outcome: Result<u16, DivisionByZeroError<u16>>) {
        match self.checked_div_euclid(other) {
            Some(quotient) => Ok(quotient),
            None => Err(DivisionByZeroError::new(self)),
        }
    }

    fn try_rem(self, other: u16) -> (outcome: Result<u16, DivisionByZeroError<u16>>) {
        match self.checked_rem(other) {
            Some(remainder) => Ok(remainder),
            None => Err(DivisionByZeroError::new(self)),
        }
    }

    fn try_rem_euclid(self, other: u16) -> (outcome: Result<u16, DivisionByZeroError<u16>>) {
        match self.checked_rem_euclid(other) {
            Some(remainder) => Ok(remainder),
            None => Err(DivisionByZeroError::new(self)),
        }
    }

    fn try_pow(self, other: u32) -> (outcome: Result<u16, OverflowError<u16, u32>>) {
        match pow_within(self as u128, other, u16::MAX as u128) {
            Some(power) => Ok(power as u16),
            None => Err(OverflowError::new(self, "**", other)),
        }
    }

    fn try_shl(self, other: u32) -> (outcome: Result<u16, BigShiftError<u16>>) {
        if other < u16::BITS {
            Ok(self << other)
        } else {
            Err(BigShiftError::new(self, "<<", other))
        }
    }

    fn try_shr(self, other: u32) -> (outcome: Result<u16, BigShiftError<u16>>) {
        if other < u16::BITS {
            Ok(self >> other)
        } else {
            Err(BigShiftError::new(self, ">>", other))
        }
    }
}

impl TypeName for u32 {
    open spec fn name_spec() -> Seq<char> {
        "u32"@
    }

    fn name() -> (text: &'static str) {
        "u32"
    }
}

impl Integer for u32 {
    open spec fn value(self) -> int {
        self as int
    }

    open spec fn min_value() -> int {
        u32::MIN as int
    }

    open spec fn max_value() -> int {
        u32::MAX as int
    }

    open spec fn bits() -> nat {
        u32::BITS as nat
    }

    proof fn lemma_value_in_range(self) {
    }

    proof fn lemma_value_is_injective(self, other: Self) {
    }

    fn to_decimal(self) -> (text: String) {
        unsigned_decimal(self as u128)
    }
}

impl ArithmeticTryOps for u32 {
    open spec fn shl_spec(self, amount: u32) -> u32 {
        self << amount
    }

    open spec fn shr_spec(self, amount: u32) -> u32 {
        self >> amount
    }

    fn try_add(self, other: u32) -> (outcome: Result<u32, OverflowError<u32, u32>>) {
        match self.checked_add(other) {
            Some(sum) => Ok(sum),
            None => Err(OverflowError::new(self, "+", other)),
        }
    }

    fn try_sub(self, other: u32) -> (outcome: Result<u32, OverflowError<u32, u32>>) {
        match self.checked_sub(other) {
            Some(difference) => Ok(difference),
            None => Err(OverflowError::new(self, "-", other)),
        }
    }

    fn try_mul(self, other: u32) -> (outcome: Result<u32, OverflowError<u32, u32>>) {
        match self.checked_mul(other) {
            Some(product) => Ok(product),
            None => Err(OverflowError::new(self, "*", other)),
        }
    }

    fn try_div(self, other: u32) -> (outcome: Result<u32, DivisionByZeroError<u32>>) {
        match self.checked_div(other) {
            Some(quotient) => Ok(quotient),
            None => Err(DivisionByZeroError::new(self)),
        }
    }

    fn try_div_euclid(self, other: u32) -> (outcome: Result<u32, DivisionByZeroError<u32>>) {
        match self.checked_div_euclid(other) {
            Some(quotient) => Ok(quotient),
            None => Err(DivisionByZeroError::new(self)),
        }
    }

    fn try_rem(self, other: u32) -> (outcome: Result<u32, DivisionByZeroError<u32>>) {
        match self.checked_rem(other) {
            Some(remainder) => Ok(remainder),
            None => Err(DivisionByZeroError::new(self)),
        }
    }

    fn try_rem_euclid(self, other: u32) -> (outcome: Result<u32, DivisionByZeroError<u32>>) {
        match self.checked_rem_euclid(other) {
            Some(remainder) => Ok(remainder),
            None => Err(DivisionByZeroError::new(self)),
        }
    }

    fn try_pow(self, other: u32) -> (outcome: Result<u32, OverflowError<u32, u32>>) {
        match pow_within(self as u128, other, u32::MAX as u128) {
            Some(power) => Ok(power as u32),
            None => Err(OverflowError::new(self, "**", other)),
        }
    }

    fn try_shl(self, other: u32) -> (outcome: Result<u32, BigShiftError<u32>>) {
        if other < u32::BITS {
            Ok(self << other)
        } else {
            Err(BigShiftError::new(self, "<<", other))
        }
    }

    fn try_shr(self, other: u32) -> (outcome: Result<u32, BigShiftError<u32>>) {
        if other < u32::BITS {
            Ok(self >> other)
        } else {
            Err(BigShiftError::new(self, ">>", other))
        }
    }
}

impl TypeName for u64 {
    open spec fn name_spec() -> Seq<char> {
        "u64"@
    }

    fn name() -> (text: &'static str) {
        "u64"
    }
}

impl Integer for u64 {
    open spec fn value(self) -> int {
        self as int
    }

    open spec fn min_value() -> int {
        u64::MIN as int
    }

    open spec fn max_value() -> int {
        u64::MAX as int
    }

    open spec fn bits() -> nat {
        u64::BITS as nat
    }

    proof fn lemma_value_in_range(self) {
    }

    proof fn lemma_value_is_injective(self, other: Self) {
    }

    fn to_decimal(self) -> (text: String) {
        unsigned_decimal(self as u128)
    }
}

impl ArithmeticTryOps for u64 {
    open spec fn shl_spec(self, amount: u32) -> u64 {
        self << amount
    }

    open spec fn shr_spec(self, amount: u32) -> u64 {
        self >> amount
    }

    fn try_add(self, other: u64) -> (outcome: Result<u64, OverflowError<u64, u64>>) {
        match self.checked_add(other) {
            Some(sum) => Ok(sum),
            None => Err(OverflowError::new(self, "+", other)),
        }
    }

    fn try_sub(self, other: u64) -> (outcome: Result<u64, OverflowError<u64, u64>>) {
        match self.checked_sub(other) {
            Some(difference) => Ok(difference),
            None => Err(OverflowError::new(self, "-", other)),
        }
    }

    fn try_mul(self, other: u64) -> (outcome: Result<u64, OverflowError<u64, u64>>) {
        match self.checked_mul(other) {
            Some(product) => Ok(product),
            None => Err(OverflowError::new(self, "*", other)),
        }
    }

    fn try_div(self, other: u64) -> (outcome: Result<u64, DivisionByZeroError<u64>>) {
        match self.checked_div(other) {
            Some(quotient) => Ok(quotient),
            None => Err(DivisionByZeroError::new(self)),
        }
    }

    fn try_div_euclid(self, other: u64) -> (outcome: Result<u64, DivisionByZeroError<u64>>) {
        match self.checked_div_euclid(other) {
            Some(quotient) => Ok(quotient),
            None => Err(DivisionByZeroError::new(self)),
        }
    }

    fn try_rem(self, other: u64) -> (outcome: Result<u64, DivisionByZeroError<u64>>) {
        match self.checked_rem(other) {
            Some(remainder) => Ok(remainder),
            None => Err(DivisionByZeroError::new(self)),
        }
    }

    fn try_rem_euclid(self, other: u64) -> (outcome: Result<u64, DivisionByZeroError<u64>>) {
        match self.checked_rem_euclid(other) {
            Some(remainder) => Ok(remainder),
            None => Err(DivisionByZeroError::new(self)),
        }
    }

    fn try_pow(self, other: u32) -> (outcome: Result<u64, OverflowError<u64, u32>>) {
        match pow_within(self as u128, other, u64::MAX as u128) {
            Some(power) => Ok(power as u64),
            None => Err(OverflowError::new(self, "**", other)),
        }
    }

    fn try_shl(self, other: u32) -> (outcome: Result<u64, BigShiftError<u64>>) {
        if other < u64::BITS {
            Ok(self << other)
        } else {
            Err(BigShiftError::new(self, "<<", other))
        }
    }

    fn try_shr(self, other: u32) -> (outcome: Result<u64, BigShiftError<u64>>) {
        if other < u64::BITS {
            Ok(self >> other)
        } else {
            Err(BigShiftError::new(self, ">>", other))
        }
    }
}

impl TypeName for u128 {
    open spec fn name_spec() -> Seq<char> {
        "u128"@
    }

    fn name() -> (text: &'static str) {
        "u128"
    }
}

impl Integer for u128 {
    open spec fn value(self) -> int {
        self as int
    }

    open spec fn min_value() -> int {
        u128::MIN as int
    }

    open spec fn max_value() -> int {
        u128::MAX as int
    }

    open spec fn bits() -> nat {
        u128::BITS as nat
    }

    proof fn lemma_value_in_range(self) {
    }

    proof fn lemma_value_is_injective(self, other: Self) {
    }

    fn to_decimal(self) -> (text: String) {
        unsigned_decimal(self)
    }
}

impl ArithmeticTryOps for u128 {
    open spec fn shl_spec(self, amount: u32) -> u128 {
        self << amount
    }

    open spec fn shr_spec(self, amount: u32) -> u128 {
        self >> amount
    }

    fn try_add(self, other: u128) -> (outcome: Result<u128, OverflowError<u128, u128>>) {
        match self.checked_add(other) {
            Some(sum) => Ok(sum),
            None => Err(OverflowError::new(self, "+", other)),
        }
    }

    fn try_sub(self, other: u128) -> (outcome: Result<u128, OverflowError<u128, u128>>) {
        match self.checked_sub(other) {
            Some(difference) => Ok(difference),
            None => Err(OverflowError::new(self, "-", other)),
        }
    }

    fn try_mul(self, other: u128) -> (outcome: Result<u128, OverflowError<u128, u128>>) {
        match self.checked_mul(other) {
            Some(product) => Ok(product),
            None => Err(OverflowError::new(self, "*", other)),
        }
    }

    fn try_div(self, other: u128) -> (outcome: Result<u128, DivisionByZeroError<u128>>) {
        match self.checked_div(other) {
            Some(quotient) => Ok(quotient),
            None => Err(DivisionByZeroError::new(self)),
        }
    }

    fn try_div_euclid(self, other: u128) -> (outcome: Result<u128, DivisionByZeroError<u128>>) {
        match self.checked_div_euclid(other) {
            Some(quotient) => Ok(quotient),
            None => Err(DivisionByZeroError::new(self)),
        }
    }

    fn try_rem(self, other: u128) -> (outcome: Result<u128, DivisionByZeroError<u128>>) {
        match self.checked_rem(other) {
            Some(remainder) => Ok(remainder),
            None => Err(DivisionByZeroError::new(self)),
        }
    }

    fn try_rem_euclid(self, other: u128) -> (outcome: Result<u128, DivisionByZeroError<u128>>) {
        match self.checked_rem_euclid(other) {
            Some(remainder) => Ok(remainder),
            None => Err(DivisionByZeroError::new(self)),
        }
    }

    fn try_pow(self, other: u32) -> (outcome: Result<u128, OverflowError<u128, u32>>) {
        match pow_within(self, other, u128::MAX) {
            Some(power) => Ok(power),
            None => Err(OverflowError::new(self, "**", other)),
        }
    }

    fn try_shl(self, other: u32) -> (outcome: Result<u128, BigShiftError<u128>>) {
        if other < u128::BITS {
            Ok(self << other)
        } else {
            Err(BigShiftError::new(self, "<<", other))
        }
    }

    fn try_shr(self, other: u32) -> (outcome: Result<u128, BigShiftError<u128>>) {
        if other < u128::BITS {
            Ok(self >> other)
        } else {
            Err(BigShiftError::new(self, ">>", other))
        }
    }
}

impl TypeName for usize {
    open spec fn name_spec() -> Seq<char> {
        "usize"@
    }

    fn name() -> (text: &'static str) {
        "usize"
    }
}

impl Integer for usize {
    open spec fn value(self) -> int {
        self as int
    }

    open spec fn min_value() -> int {
        usize::MIN as int
    }

    open spec fn max_value() -> int {
        usize::MAX as int
    }

    open spec fn bits() -> nat {
        usize::BITS as nat
    }

    proof fn lemma_value_in_range(self) {
    }

    proof fn lemma_value_is_injective(self, other: Self) {
    }

    fn to_decimal(self) -> (text: String) {
        unsigned_decimal(self as u128)
    }
}

impl ArithmeticTryOps for usize {
    open spec fn shl_spec(self, amount: u32) -> usize {
        self << amount
    }

    open spec fn shr_spec(self, amount: u32) -> usize {
        self >> amount
    }

    fn try_add(self, other: usize) -> (outcome: Result<usize, OverflowError<usize, usize>>) {
        match self.checked_add(other) {
            Some(sum) => Ok(sum),
            None => Err(OverflowError::new(self, "+", other)),
        }
    }

    fn try_sub(self, other: usize) -> (outcome: Result<usize, OverflowError<usize, usize>>) {
        match self.checked_sub(other) {
            Some(difference) => Ok(difference),
            None => Err(OverflowError::new(self, "-", other)),
        }
    }

    fn try_mul(self, other: usize) -> (outcome: Result<usize, OverflowError<usize, usize>>) {
        match self.checked_mul(other) {
            Some(product) => Ok(product),
            None => Err(OverflowError::new(self, "*", other)),
        }
    }

    fn try_div(self, other: usize) -> (outcome: Result<usize, DivisionByZeroError<usize>>) {
        match self.checked_div(other) {
            Some(quotient) => Ok(quotient),
            None => Err(DivisionByZeroError::new(self)),
        }
    }

    fn try_div_euclid(self, other: usize) -> (outcome: Result<usize, DivisionByZeroError<usize>>) {
        match self.checked_div_euclid(other) {
            Some(quotient) => Ok(quotient),
            None => Err(DivisionByZeroError::new(self)),
        }
    }

    fn try_rem(self, other: usize) -> (outcome: Result<usize, DivisionByZeroError<usize>>) {
        match self.checked_rem(other) {
            Some(remainder) => Ok(remainder),
            None => Err(DivisionByZeroError::new(self)),
        }
    }

    fn try_rem_euclid(self, other: usize) -> (outcome: Result<usize, DivisionByZeroError<usize>>) {
        match self.checked_rem_euclid(other) {
            Some(remainder) => Ok(remainder),
            None => Err(DivisionByZeroError::new(self)),
        }
    }

    fn try_pow(self, other: u32) -> (outcome: Result<usize, OverflowError<usize, u32>>) {
        match pow_within(self as u128, other, usize::MAX as u128) {
            Some(power) => Ok(power as usize),
            None => Err(OverflowError::new(self, "**", other)),
        }
    }

    fn try_shl(self, other: u32) -> (outcome: Result<usize, BigShiftError<usize>>) {
        if other < usize::BITS {
            Ok(self << other)
        } else {
            Err(BigShiftError::new(self, "<<", other))
        }
    }

    fn try_shr(self, other: u32) -> (outcome: Result<usize, BigShiftError<usize>>) {
        if other < usize::BITS {
            Ok(self >> other)
        } else {
            Err(BigShiftError::new(self, ">>", other))
        }
    }
}

} // verus!
