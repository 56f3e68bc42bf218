use result_tools::decimal::{signed_decimal, unsigned_decimal};
use result_tools::error::{CausalError, DisplayError};
use result_tools::ops::{ArithmeticTryOps, Integer, TypeName};

#[test]
fn add() {
    assert!(255u8.try_add(1).is_err());
}

#[test]
fn add_at_the_edge_of_u8() {
    assert_eq!(254u8.try_add(1).unwrap(), 255);
    assert_eq!(0u8.try_add(0).unwrap(), 0);
    assert_eq!(255u8.try_add(0).unwrap(), 255);
    assert!(128u8.try_add(128).is_err());
}

#[test]
fn add_is_ok_exactly_when_the_sum_fits_u8() {
    for a in 0..=255u8 {
        for b in 0..=255u8 {
            let fits = (a as u32) + (b as u32) <= 255;
            match a.try_add(b) {
                Ok(sum) => {
                    assert!(fits);
                    assert_eq!(sum as u32, a as u32 + b as u32);
                }
                Err(_) => assert!(!fits),
            }
        }
    }
}

#[test]
fn overflow_message_names_operands_and_operator() {
    assert_eq!(255u8.try_add(1).unwrap_err().message(), "operation 255 + 1 overflowed");
    assert_eq!(0u8.try_sub(1).unwrap_err().message(), "operation 0 - 1 overflowed");
    assert_eq!(16u8.try_mul(16).unwrap_err().message(), "operation 16 * 16 overflowed");
    assert_eq!(
        (-128i8).try_sub(1).unwrap_err().message(),
        "operation -128 - 1 overflowed"
    );
    assert_eq!(
        i64::MIN.try_add(-1).unwrap_err().message(),
        "operation -9223372036854775808 + -1 overflowed"
    );
}

#[test]
fn sub_and_mul_in_range() {
    assert_eq!(5u16.try_sub(5).unwrap(), 0);
    assert_eq!((-100i8).try_sub(28).unwrap(), -128);
    assert!((-100i8).try_sub(29).is_err());
    assert_eq!(255u16.try_mul(257).unwrap(), 65535);
    assert!(256u16.try_mul(256).is_err());
    assert_eq!((-64i8).try_mul(2).unwrap(), -128);
    assert!(64i8.try_mul(2).is_err());
    assert_eq!(u128::MAX.try_mul(1).unwrap(), u128::MAX);
    assert!(u128::MAX.try_mul(2).is_err());
    assert_eq!(usize::MAX.try_sub(usize::MAX).unwrap(), 0);
    assert!(isize::MAX.try_add(1).is_err());
}

#[test]
fn pow_of_unsigned() {
    assert_eq!(2u8.try_pow(7).unwrap(), 128);
    assert!(2u8.try_pow(8).is_err());
    assert_eq!(0u8.try_pow(0).unwrap(), 1);
    assert_eq!(0u8.try_pow(5).unwrap(), 0);
    assert_eq!(1u64.try_pow(u32::MAX).unwrap(), 1);
    assert_eq!(0u64.try_pow(u32::MAX).unwrap(), 0);
    assert_eq!(3u32.try_pow(20).unwrap(), 3486784401);
    assert!(3u32.try_pow(21).is_err());
    assert_eq!(2u128.try_pow(127).unwrap(), 1u128 << 127);
    assert!(2u128.try_pow(128).is_err());
    assert_eq!(10usize.try_pow(3).unwrap(), 1000);
    assert_eq!(255u8.try_pow(1).unwrap(), 255);
    assert!(16u8.try_pow(2).is_err());
}

#[test]
fn pow_of_signed() {
    assert_eq!((-2i8).try_pow(7).unwrap(), -128);
    assert!((-2i8).try_pow(8).is_err());
    assert!(2i8.try_pow(7).is_err());
    assert_eq!(2i8.try_pow(6).unwrap(), 64);
    assert_eq!((-1i32).try_pow(u32::MAX).unwrap(), -1);
    assert_eq!((-1i32).try_pow(u32::MAX - 1).unwrap(), 1);
    assert_eq!((-3i16).try_pow(3).unwrap(), -27);
    assert_eq!((-3i16).try_pow(4).unwrap(), 81);
    assert_eq!(i128::MIN.try_pow(1).unwrap(), i128::MIN);
    assert!(i128::MIN.try_pow(2).is_err());
    assert_eq!((-2i128).try_pow(127).unwrap(), i128::MIN);
    assert!((-2i128).try_pow(128).is_err());
    assert_eq!(i64::MIN.try_pow(0).unwrap(), 1);
    assert_eq!(0isize.try_pow(9).unwrap(), 0);
}

#[test]
fn pow_error_holds_the_exponent_as_it_is() {
    assert_eq!(2u8.try_pow(8).unwrap_err().message(), "operation 2 ** 8 overflowed");
    assert_eq!(
        (-2i8).try_pow(4000000000).unwrap_err().message(),
        "operation -2 ** 4000000000 overflowed"
    );
}

#[test]
fn pow_agrees_with_checked_pow() {
    for base in -128..=127i8 {
        for exp in 0..12u32 {
            assert_eq!(base.try_pow(exp).ok(), base.checked_pow(exp));
        }
    }
    for base in 0..=255u8 {
        for exp in 0..12u32 {
            assert_eq!(base.try_pow(exp).ok(), base.checked_pow(exp));
        }
    }
}

#[test]
fn division_by_zero_fails_whatever_the_dividend() {
    for a in 0..=255u8 {
        assert!(a.try_div(0).is_err());
        assert!(a.try_div_euclid(0).is_err());
        assert!(a.try_rem(0).is_err());
        assert!(a.try_rem_euclid(0).is_err());
    }
    for a in -128..=127i8 {
        assert!(a.try_div(0).is_err());
        assert!(a.try_div_euclid(0).is_err());
        assert!(a.try_rem(0).is_err());
        assert!(a.try_rem_euclid(0).is_err());
    }
    assert_eq!(7u32.try_div(0).unwrap_err().message(), "attempted to divide 7 by zero");
    assert_eq!((-7i32).try_rem(0).unwrap_err().message(), "attempted to divide -7 by zero");
}

#[test]
fn division_rounds_toward_zero() {
    assert_eq!(7i32.try_div(2).unwrap(), 3);
    assert_eq!((-7i32).try_div(2).unwrap(), -3);
    assert_eq!(7i32.try_div(-2).unwrap(), -3);
    assert_eq!((-7i32).try_div(-2).unwrap(), 3);
    assert_eq!(7i32.try_rem(2).unwrap(), 1);
    assert_eq!((-7i32).try_rem(2).unwrap(), -1);
    assert_eq!(7i32.try_rem(-2).unwrap(), 1);
    assert_eq!((-7i32).try_rem(-2).unwrap(), -1);
    assert_eq!(200u8.try_div(7).unwrap(), 28);
    assert_eq!(200u8.try_rem(7).unwrap(), 4);
}

#[test]
fn euclidean_division_keeps_the_remainder_positive() {
    assert_eq!(7i32.try_div_euclid(2).unwrap(), 3);
    assert_eq!((-7i32).try_div_euclid(2).unwrap(), -4);
    assert_eq!(7i32.try_div_euclid(-2).unwrap(), -3);
    assert_eq!((-7i32).try_div_euclid(-2).unwrap(), 4);
    assert_eq!(7i32.try_rem_euclid(2).unwrap(), 1);
    assert_eq!((-7i32).try_rem_euclid(2).unwrap(), 1);
    assert_eq!(7i32.try_rem_euclid(-2).unwrap(), 1);
    assert_eq!((-7i32).try_rem_euclid(-2).unwrap(), 1);
    assert_eq!(200u8.try_div_euclid(7).unwrap(), 28);
    assert_eq!(200u8.try_rem_euclid(7).unwrap(), 4);
}

#[test]
fn division_agrees_with_the_plain_operators() {
    for a in -128..=127i8 {
        for b in -128..=127i8 {
            if b == 0 || (a == -128 && b == -1) {
                assert!(a.try_div(b).is_err());
                assert!(a.try_div_euclid(b).is_err());
                assert!(a.try_rem(b).is_err());
                assert!(a.try_rem_euclid(b).is_err());
            } else {
                assert_eq!(a.try_div(b).unwrap(), a / b);
                assert_eq!(a.try_rem(b).unwrap(), a % b);
                assert_eq!(a.try_div_euclid(b).unwrap(), a.div_euclid(b));
                assert_eq!(a.try_rem_euclid(b).unwrap(), a.rem_euclid(b));
            }
        }
    }
}

#[test]
fn least_value_by_minus_one_fails_at_every_width() {
    assert!(i8::MIN.try_div(-1).is_err());
    assert!(i16::MIN.try_div(-1).is_err());
    assert!(i32::MIN.try_div(-1).is_err());
    assert!(i64::MIN.try_div(-1).is_err());
    assert!(i128::MIN.try_div(-1).is_err());
    assert!(isize::MIN.try_div(-1).is_err());
    assert!(i8::MIN.try_div_euclid(-1).is_err());
    assert!(i16::MIN.try_div_euclid(-1).is_err());
    assert!(i32::MIN.try_div_euclid(-1).is_err());
    assert!(i64::MIN.try_div_euclid(-1).is_err());
    assert!(i128::MIN.try_div_euclid(-1).is_err());
    assert!(isize::MIN.try_div_euclid(-1).is_err());
    assert!(i8::MIN.try_rem(-1).is_err());
    assert!(i16::MIN.try_rem(-1).is_err());
    assert!(i32::MIN.try_rem(-1).is_err());
    assert!(i64::MIN.try_rem(-1).is_err());
    assert!(i128::MIN.try_rem(-1).is_err());
    assert!(isize::MIN.try_rem(-1).is_err());
    assert!(i8::MIN.try_rem_euclid(-1).is_err());
    assert!(i128::MIN.try_rem_euclid(-1).is_err());
    assert_eq!(
        i8::MIN.try_div(-1).unwrap_err().message(),
        "attempted to divide -128 by zero"
    );
    assert_eq!(i8::MIN.try_div(1).unwrap(), i8::MIN);
    assert_eq!((i8::MIN + 1).try_div(-1).unwrap(), i8::MAX);
    assert_eq!(i128::MIN.try_div(-2).unwrap(), 1i128 << 126);
}

#[test]
fn shift_fails_from_the_width_on() {
    assert_eq!(1u8.try_shl(7).unwrap(), 128);
    assert!(1u8.try_shl(8).is_err());
    assert_eq!(1u16.try_shl(15).unwrap(), 1 << 15);
    assert!(1u16.try_shl(16).is_err());
    assert_eq!(1u32.try_shl(31).unwrap(), 1 << 31);
    assert!(1u32.try_shl(32).is_err());
    assert_eq!(1u64.try_shl(63).unwrap(), 1 << 63);
    assert!(1u64.try_shl(64).is_err());
    assert_eq!(1u128.try_shl(127).unwrap(), 1 << 127);
    assert!(1u128.try_shl(128).is_err());
    assert_eq!(1usize.try_shl(usize::BITS - 1).unwrap(), 1 << (usize::BITS - 1));
    assert!(1usize.try_shl(usize::BITS).is_err());
    assert_eq!(1i8.try_shl(7).unwrap(), i8::MIN);
    assert!(1i8.try_shl(8).is_err());
    assert!(1i16.try_shl(16).is_err());
    assert!(1i32.try_shl(32).is_err());
    assert!(1i64.try_shl(64).is_err());
    assert!(1i128.try_shl(128).is_err());
    assert!(1isize.try_shl(isize::BITS).is_err());
    assert!(1u8.try_shl(u32::MAX).is_err());
}

#[test]
fn shift_below_the_width_is_the_plain_shift() {
    for a in 0..=255u8 {
        for n in 0..8u32 {
            assert_eq!(a.try_shl(n).unwrap(), a << n);
            assert_eq!(a.try_shr(n).unwrap(), a >> n);
        }
        assert!(a.try_shr(8).is_err());
    }
    for a in -128..=127i8 {
        for n in 0..8u32 {
            assert_eq!(a.try_shl(n).unwrap(), a << n);
            assert_eq!(a.try_shr(n).unwrap(), a >> n);
        }
        assert!(a.try_shr(8).is_err());
    }
    assert_eq!((-1i64).try_shr(63).unwrap(), -1);
    assert_eq!(u128::MAX.try_shr(127).unwrap(), 1);
    assert_eq!(0xffu8.try_shl(4).unwrap(), 0xf0);
}

#[test]
fn shift_message_names_the_type() {
    assert_eq!(
        1u8.try_shl(8).unwrap_err().message(),
        "operation 1 << 8 attempted to shift too much (the type of LHS is u8)"
    );
    assert_eq!(
        (-5i64).try_shr(64).unwrap_err().message(),
        "operation -5 >> 64 attempted to shift too much (the type of LHS is i64)"
    );
    assert_eq!(
        7usize.try_shl(1000).unwrap_err().message(),
        "operation 7 << 1000 attempted to shift too much (the type of LHS is usize)"
    );
}

#[test]
fn type_names() {
    assert_eq!(<u8 as TypeName>::name(), "u8");
    assert_eq!(<u16 as TypeName>::name(), "u16");
    assert_eq!(<u32 as TypeName>::name(), "u32");
    assert_eq!(<u64 as TypeName>::name(), "u64");
    assert_eq!(<u128 as TypeName>::name(), "u128");
    assert_eq!(<usize as TypeName>::name(), "usize");
    assert_eq!(<i8 as TypeName>::name(), "i8");
    assert_eq!(<i16 as TypeName>::name(), "i16");
    assert_eq!(<i32 as TypeName>::name(), "i32");
    assert_eq!(<i64 as TypeName>::name(), "i64");
    assert_eq!(<i128 as TypeName>::name(), "i128");
    assert_eq!(<isize as TypeName>::name(), "isize");
}

#[test]
fn decimal_text() {
    assert_eq!(unsigned_decimal(0), "0");
    assert_eq!(unsigned_decimal(9), "9");
    assert_eq!(unsigned_decimal(10), "10");
    assert_eq!(unsigned_decimal(1234567890), "1234567890");
    assert_eq!(unsigned_decimal(u128::MAX), u128::MAX.to_string());
    assert_eq!(signed_decimal(0), "0");
    assert_eq!(signed_decimal(-1), "-1");
    assert_eq!(signed_decimal(i128::MIN), i128::MIN.to_string());
    assert_eq!(signed_decimal(i128::MAX), i128::MAX.to_string());
    assert_eq!(Integer::to_decimal(200u8), "200");
    assert_eq!(Integer::to_decimal(-128i8), "-128");
    assert_eq!(Integer::to_decimal(u64::MAX), "18446744073709551615");
    assert_eq!(Integer::to_decimal(isize::MIN), isize::MIN.to_string());
    for n in -1000..1000i32 {
        assert_eq!(Integer::to_decimal(n), n.to_string());
    }
}

#[test]
fn arithmetic_errors_have_no_cause() {
    let overflow = 255u8.try_add(1).unwrap_err();
    assert!(overflow.source().is_none());
    assert_eq!(overflow.join_sources(": ").render(), "operation 255 + 1 overflowed");
    let division = 1u8.try_div(0).unwrap_err();
    assert!(division.source().is_none());
    assert_eq!(division.join_sources(": ").render(), "attempted to divide 1 by zero");
    let shift = 1u8.try_shr(9).unwrap_err();
    assert!(shift.source().is_none());
    assert_eq!(
        shift.join_sources(": ").render(),
        "operation 1 >> 9 attempted to shift too much (the type of LHS is u8)"
    );
}
