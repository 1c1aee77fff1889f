use vstd::prelude::*;
use vstd::arithmetic::div_mod::{
    lemma_div_pos_is_pos,
    lemma_fundamental_div_mod,
    lemma_mod_bound,
    lemma_multiply_divide_le,
};
use vstd::arithmetic::power::{pow, lemma_pow0, lemma_pow_increases, lemma_pow_positive};
use crate::errors::VaultError;

verus! {

/// A token quantity held in a 128-bit accumulator, so that a product of two
/// 64-bit quantities can be formed before it is divided and narrowed again.
///
/// Every operation is checked: it either returns the exact mathematical
/// result or fails with [`VaultError::ArithmeticOverflow`].
#[derive(Debug, Clone, Copy, PartialEq, Eq, Structural)]
pub struct TokenAmount(u128);

impl View for TokenAmount {
    type V = nat;

    /// The quantity that the accumulator holds.
    closed spec fn view(&self) -> nat {
        self.0 as nat
    }
}

impl TokenAmount {
    /// Widens a native token quantity.
    pub fn new(amount: u64) -> (wide: Self)
        ensures
            wide@ == amount,
    {
        Self(amount as u128)
    }

    /// Ten raised to `exponent`, the unit that scales a value down by a
    /// token's decimal precision. Fails when the power leaves 128 bits.
    pub fn power_of_ten(exponent: u8) -> (result: Result<Self, VaultError>)
        ensures
            pow(10, exponent as nat) <= u128::MAX ==> (result matches Ok(unit) && unit@ == pow(
                10,
                exponent as nat,
            )),
            pow(10, exponent as nat) > u128::MAX ==> result == Err::<Self, VaultError>(
                VaultError::ArithmeticOverflow,
            ),
    {
        let mut unit: u128 = 1;
        let mut done: u8 = 0;
        proof {
            lemma_pow0(10);
        }
        while done < exponent
            invariant
                done <= exponent,
                unit == pow(10, done as nat),
            decreases exponent - done,
        {
            proof {
                reveal(pow);
                lemma_pow_positive(10, done as nat);
            }
            match unit.checked_mul(10) {
                Some(next) => {
                    unit = next;
                    done = done + 1;
                },
                None => {
                    proof {
                        lemma_pow_increases(10, (done + 1) as nat, exponent as nat);
                    }
                    return Err(VaultError::ArithmeticOverflow);
                },
            }
        }
        Ok(Self(unit))
    }

    /// Checked multiplication by a native quantity.
    pub fn multiply(&self, other: u64) -> (result: Result<Self, VaultError>)
        ensures
            self@ * other <= u128::MAX ==> (result matches Ok(product) && product@ == self@
                * other),
            self@ * other > u128::MAX ==> result == Err::<Self, VaultError>(
                VaultError::ArithmeticOverflow,
            ),
    {
        match self.0.checked_mul(other as u128) {
            Some(product) => Ok(Self(product)),
            None => Err(VaultError::ArithmeticOverflow),
        }
    }

    /// Checked integer division by a native quantity, rounding down. Fails
    /// when the divisor is zero.
    pub fn divide(&self, other: u64) -> (result: Result<Self, VaultError>)
        ensures
            other != 0 ==> (result matches Ok(quotient) && quotient@ == self@ / (other as nat)),
            other == 0 ==> result == Err::<Self, VaultError>(VaultError::ArithmeticOverflow),
    {
        match self.0.checked_div(other as u128) {
            Some(quotient) => Ok(Self(quotient)),
            None => Err(VaultError::ArithmeticOverflow),
        }
    }

    /// Checked addition of two wide quantities.
    pub fn plus(&self, other: &TokenAmount) -> (result: Result<Self, VaultError>)
        ensures
            self@ + other@ <= u128::MAX ==> (result matches Ok(sum) && sum@ == self@ + other@),
            self@ + other@ > u128::MAX ==> result == Err::<Self, VaultError>(
                VaultError::ArithmeticOverflow,
            ),
    {
        match self.0.checked_add(other.0) {
            Some(sum) => Ok(Self(sum)),
            None => Err(VaultError::ArithmeticOverflow),
        }
    }

    /// Checked integer division by a wide quantity, rounding down. Fails when
    /// the divisor is zero.
    pub fn divide_by(&self, divisor: &TokenAmount) -> (result: Result<Self, VaultError>)
        ensures
            divisor@ != 0 ==> (result matches Ok(quotient) && quotient@ == self@ / divisor@),
            divisor@ == 0 ==> result == Err::<Self, VaultError>(VaultError::ArithmeticOverflow),
    {
        match self.0.checked_div(divisor.0) {
            Some(quotient) => Ok(Self(quotient)),
            None => Err(VaultError::ArithmeticOverflow),
        }
    }

    /// Whether this quantity is strictly greater than `other`.
    pub fn exceeds(&self, other: &TokenAmount) -> (greater: bool)
        ensures
            greater == (self@ > other@),
    {
        self.0 > other.0
    }

    /// Checked narrowing to the native width.
    pub fn to_u64(&self) -> (result: Result<u64, VaultError>)
        ensures
            self@ <= u64::MAX ==> result == Ok::<u64, VaultError>(self@ as u64),
            self@ > u64::MAX ==> result == Err::<u64, VaultError>(VaultError::ArithmeticOverflow),
    {
        if self.0 <= u64::MAX as u128 {
            Ok(self.0 as u64)
        } else {
            Err(VaultError::ArithmeticOverflow)
        }
    }
}

/// The value of `amount * numerator / denominator`, rounded down: the share
/// of `amount` that `numerator` parts out of `denominator` stand for. It is
/// an error when the denominator is zero or the quotient leaves 64 bits.
pub open spec fn proportional_amount(amount: u64, numerator: u64, denominator: u64) -> Result<
    u64,
    VaultError,
> {
    if denominator == 0 {
        Err(VaultError::ArithmeticOverflow)
    } else if (amount * numerator) / (denominator as int) > u64::MAX {
        Err(VaultError::ArithmeticOverflow)
    } else {
        Ok(((amount * numerator) / (denominator as int)) as u64)
    }
}

/// Multiplies before it divides, in the wide accumulator, so that no
/// precision is lost to an early division and no product overflows.
pub fn calculate_proportional_amount(amount: u64, numerator: u64, denominator: u64) -> (result:
    Result<u64, VaultError>)
    ensures
        result == proportional_amount(amount, numerator, denominator),
{
    proof {
        lemma_u64_product_fits(amount, numerator);
    }
    TokenAmount::new(amount).multiply(numerator)?.divide(denominator)?.to_u64()
}

/// The product of two 64-bit quantities always fits the wide accumulator.
pub proof fn lemma_u64_product_fits(x: u64, y: u64)
    ensures
        0 <= x * y <= u128::MAX,
{
    assert(0 <= x * y <= 0xffff_ffff_ffff_ffff * 0xffff_ffff_ffff_ffff) by (nonlinear_arith)
        requires
            0 <= x <= 0xffff_ffff_ffff_ffff,
            0 <= y <= 0xffff_ffff_ffff_ffff,
    ;
}

/// A quotient rounded down lies within one divisor below its dividend:
/// `(x / d) * d <= x < (x / d + 1) * d`.
pub proof fn lemma_floor_bounds(x: int, d: int)
    requires
        0 <= x,
        0 < d,
    ensures
        0 <= x / d,
        (x / d) * d <= x,
        x < (x / d + 1) * d,
{
    lemma_fundamental_div_mod(x, d);
    lemma_mod_bound(x, d);
    lemma_div_pos_is_pos(x, d);
    let q = x / d;
    assert(d * q == q * d) by (nonlinear_arith);
    assert((q + 1) * d == q * d + d) by (nonlinear_arith);
}

/// A proportional amount never exceeds the amount it is a part of, as long
/// as the numerator does not exceed the denominator: then it is defined,
/// and `amount * numerator / denominator <= amount`.
pub proof fn lemma_part_at_most_whole(amount: u64, numerator: u64, denominator: u64)
    requires
        numerator <= denominator,
        denominator != 0,
    ensures
        proportional_amount(amount, numerator, denominator) == Ok::<u64, VaultError>(
            ((amount * numerator) / (denominator as int)) as u64,
        ),
        (amount * numerator) / (denominator as int) <= amount,
        0 <= (amount * numerator) / (denominator as int),
{
    let a = amount as int;
    let n = numerator as int;
    let d = denominator as int;
    assert(0 <= a * n <= d * a) by (nonlinear_arith)
        requires
            0 <= a,
            0 <= n <= d,
    ;
    lemma_multiply_divide_le(a * n, d, a);
    lemma_div_pos_is_pos(a * n, d);
}

} // verus!
