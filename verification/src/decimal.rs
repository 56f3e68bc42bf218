//! Integers as decimal text.

use vstd::prelude::*;
use vstd::string::*;

verus! {

/// The character that stands for the digit `d`, for `d` from 0 to 9.
pub open spec fn digit(d: int) -> char {
    if d == 0 {
        '0'
    } else if d == 1 {
        '1'
    } else if d == 2 {
        '2'
    } else if d == 3 {
        '3'
    } else if d == 4 {
        '4'
    } else if d == 5 {
        '5'
    } else if d == 6 {
        '6'
    } else if d == 7 {
        '7'
    } else if d == 8 {
        '8'
    } else {
        '9'
    }
}

/// The decimal digits of `n`, most significant first, without leading zeros.
pub open spec fn decimal_nat(n: nat) -> Seq<char>
    decreases n,
{
    if n < 10 {
        seq![digit(n as int)]
    } else {
        decimal_nat(n / 10).push(digit((n % 10) as int))
    }
}

/// The decimal text of `v`: a minus sign if `v` is negative, then the digits
/// of its magnitude.
pub open spec fn decimal(v: int) -> Seq<char> {
    if v < 0 {
        seq!['-'] + decimal_nat((-v) as nat)
    } else {
        decimal_nat(v as nat)
    }
}

/// A number's decimal text has at least one character, at least two from
/// ten on, and does not begin with a minus sign.
pub proof fn lemma_decimal_nat_shape(n: nat)
    ensures
        decimal_nat(n).len() >= 1,
        n >= 10 ==> decimal_nat(n).len() >= 2,
        decimal_nat(n)[0] != '-',
    decreases n,
{
    if n >= 10 {
        lemma_decimal_nat_shape(n / 10);
    }
}

/// Two numbers with the same digits are the same number.
pub proof fn lemma_decimal_nat_is_injective(a: nat, b: nat)
    requires
        decimal_nat(a) == decimal_nat(b),
    ensures
        a == b,
    decreases a,
{
    lemma_decimal_nat_shape(a);
    lemma_decimal_nat_shape(b);
    if a < 10 {
        assert(decimal_nat(a)[0] == digit(a as int));
        assert(decimal_nat(b)[0] == digit(b as int));
    } else {
        let front_a = decimal_nat(a / 10);
        let front_b = decimal_nat(b / 10);
        let last_a = digit((a % 10) as int);
        let last_b = digit((b % 10) as int);
        assert(front_a.push(last_a).drop_last() =~= front_a);
        assert(front_b.push(last_b).drop_last() =~= front_b);
        assert(front_a.push(last_a).last() == last_a);
        assert(front_b.push(last_b).last() == last_b);
        lemma_decimal_nat_is_injective(a / 10, b / 10);
    }
}

/// The decimal text tells the number: two integers with the same text are
/// the same integer. So a message that holds the text of an operand holds
/// the operand.
pub proof fn lemma_decimal_is_injective(a: int, b: int)
    requires
        decimal(a) == decimal(b),
    ensures
        a == b,
{
    let size_a = (if a < 0 { -a } else { a }) as nat;
    let size_b = (if b < 0 { -b } else { b }) as nat;
    lemma_decimal_nat_shape(size_a);
    lemma_decimal_nat_shape(size_b);
    let minus = seq!['-'];
    if a < 0 {
        assert(decimal(a)[0] == '-');
        assert((minus + decimal_nat(size_a)).subrange(1, decimal(a).len() as int) =~= decimal_nat(
            size_a,
        ));
    }
    if b < 0 {
        assert(decimal(b)[0] == '-');
        assert((minus + decimal_nat(size_b)).subrange(1, decimal(b).len() as int) =~= decimal_nat(
            size_b,
        ));
    }
    lemma_decimal_nat_is_injective(size_a, size_b);
}

/// The text of one digit.
fn digit_str(d: u8) -> (s: &'static str)
    requires
        d < 10,
    ensures
        s@ == seq![digit(d as int)],
{
    proof {
        reveal_strlit("0");
        reveal_strlit("1");
        reveal_strlit("2");
        reveal_strlit("3");
        reveal_strlit("4");
        reveal_strlit("5");
        reveal_strlit("6");
        reveal_strlit("7");
        reveal_strlit("8");
        reveal_strlit("9");
    }
    let s = if d == 0 {
        "0"
    } else if d == 1 {
        "1"
    } else if d == 2 {
        "2"
    } else if d == 3 {
        "3"
    } else if d == 4 {
        "4"
    } else if d == 5 {
        "5"
    } else if d == 6 {
        "6"
    } else if d == 7 {
        "7"
    } else if d == 8 {
        "8"
    } else {
        "9"
    };
    assert(s@ =~= seq![digit(d as int)]);
    s
}

/// Writes an unsigned number in decimal.
pub fn unsigned_decimal(n: u128) -> (s: String)
    ensures
        s@ == decimal(n as int),
    decreases n,
{
    if n < 10 {
        digit_str(n as u8).to_owned()
    } else {
        let mut s = unsigned_decimal(n / 10);
        s.append(digit_str((n % 10) as u8));
        assert(s@ =~= decimal_nat(n as nat));
        s
    }
}

/// Writes a signed number in decimal, with a leading minus sign where it is
/// negative.
pub fn signed_decimal(n: i128) -> (s: String)
    ensures
        s@ == decimal(n as int),
{
    if n >= 0 {
        unsigned_decimal(n as u128)
    } else {
        let magnitude: u128 = if n == i128::MIN {
            0x8000_0000_0000_0000_0000_0000_0000_0000u128
        } else {
            (-n) as u128
        };
        proof {
            reveal_strlit("-");
        }
        let mut s = "-".to_owned();
        let digits = unsigned_decimal(magnitude);
        s.append(digits.as_str());
        assert(s@ =~= decimal(n as int));
        s
    }
}

} // verus!
