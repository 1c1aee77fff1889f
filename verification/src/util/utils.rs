use vstd::prelude::*;
use vstd::arithmetic::div_mod::lemma_div_denominator;
use vstd::arithmetic::mul::lemma_mul_strictly_positive;
use vstd::arithmetic::power::{pow, lemma_pow_positive};
use crate::errors::VaultError;
use crate::state::snapshot::{MarketSnapshot, PositionSnapshot};
use crate::util::liquidity_math::{
    amount_delta_a,
    amount_delta_b,
    delta_amount_a,
    sqrt_price_from_tick,
    tick_sqrt_price,
    token_b_delta,
};
use crate::util::math::{lemma_floor_bounds, lemma_u64_product_fits, TokenAmount};

verus! {

/// Where the current price stands relative to a position's price range.
#[derive(Debug, Clone, Copy, PartialEq, Eq, Structural)]
pub enum PriceRegime {
    /// The current tick is below the lower bound: the position is all token A.
    BelowRange,
    /// The current tick is at or above the lower bound and below the upper
    /// bound: the position holds both tokens.
    InRange,
    /// The current tick is at or above the upper bound: the position is all
    /// token B.
    AboveRange,
}

/// The regime of a tick relative to the range `[lower, upper)`.
pub open spec fn regime_of(
    current_tick_index: i32,
    tick_lower_index: i32,
    tick_upper_index: i32,
) -> PriceRegime {
    if current_tick_index < tick_lower_index {
        PriceRegime::BelowRange
    } else if current_tick_index < tick_upper_index {
        PriceRegime::InRange
    } else {
        PriceRegime::AboveRange
    }
}

/// Decides which of the three regimes the current tick is in.
pub fn price_regime(current_tick_index: i32, tick_lower_index: i32, tick_upper_index: i32) -> (regime:
    PriceRegime)
    ensures
        regime == regime_of(current_tick_index, tick_lower_index, tick_upper_index),
{
    if current_tick_index < tick_lower_index {
        PriceRegime::BelowRange
    } else if current_tick_index < tick_upper_index {
        PriceRegime::InRange
    } else {
        PriceRegime::AboveRange
    }
}

/// Token A held by `liquidity` between two square-root prices, rounded up.
/// The curve is not defined at a zero price, which is a failure here.
pub open spec fn token_a_between(sqrt_price_1: u128, sqrt_price_2: u128, liquidity: u128) -> Result<
    u64,
    VaultError,
> {
    if sqrt_price_1 == 0 || sqrt_price_2 == 0 {
        Err(VaultError::CalculationFailure)
    } else {
        match delta_amount_a(sqrt_price_1, sqrt_price_2, liquidity, true) {
            Some(amount) => Ok(amount),
            None => Err(VaultError::CalculationFailure),
        }
    }
}

/// Token B held by `liquidity` between two square-root prices, rounded up.
pub open spec fn token_b_between(sqrt_price_1: u128, sqrt_price_2: u128, liquidity: u128) -> Result<
    u64,
    VaultError,
> {
    match token_b_delta(sqrt_price_1, sqrt_price_2, liquidity, true) {
        Some(amount) => Ok(amount),
        None => Err(VaultError::CalculationFailure),
    }
}

/// What a position holds while the price is below its range: token A over
/// the whole range, and no token B.
pub open spec fn below_range_amounts(liquidity: u128, sqrt_lower: u128, sqrt_upper: u128) -> Result<
    (u64, u64),
    VaultError,
> {
    match token_a_between(sqrt_lower, sqrt_upper, liquidity) {
        Ok(token_a) => Ok((token_a, 0u64)),
        Err(e) => Err(e),
    }
}

/// What a position holds while the price is inside its range: token A from
/// the current price up to the upper bound, token B from the lower bound up
/// to the current price.
pub open spec fn in_range_amounts(
    liquidity: u128,
    sqrt_price: u128,
    sqrt_lower: u128,
    sqrt_upper: u128,
) -> Result<(u64, u64), VaultError> {
    match token_a_between(sqrt_price, sqrt_upper, liquidity) {
        Ok(token_a) => match token_b_between(sqrt_lower, sqrt_price, liquidity) {
            Ok(token_b) => Ok((token_a, token_b)),
            Err(e) => Err(e),
        },
        Err(e) => Err(e),
    }
}

/// What a position holds while the price is above its range: token B over
/// the whole range, and no token A.
pub open spec fn above_range_amounts(liquidity: u128, sqrt_lower: u128, sqrt_upper: u128) -> Result<
    (u64, u64),
    VaultError,
> {
    match token_b_between(sqrt_lower, sqrt_upper, liquidity) {
        Ok(token_b) => Ok((0u64, token_b)),
        Err(e) => Err(e),
    }
}

/// The token A and token B amounts inside a position, by the regime of the
/// current tick. A bound at the most negative tick index has no price and
/// makes the range malformed.
pub open spec fn position_amounts(
    liquidity: u128,
    current_tick_index: i32,
    sqrt_price: u128,
    tick_lower_index: i32,
    tick_upper_index: i32,
) -> Result<(u64, u64), VaultError> {
    if tick_lower_index == i32::MIN || tick_upper_index == i32::MIN {
        Err(VaultError::CalculationFailure)
    } else {
        let sqrt_lower = tick_sqrt_price(tick_lower_index);
        let sqrt_upper = tick_sqrt_price(tick_upper_index);
        match regime_of(current_tick_index, tick_lower_index, tick_upper_index) {
            PriceRegime::BelowRange => below_range_amounts(liquidity, sqrt_lower, sqrt_upper),
            PriceRegime::InRange => in_range_amounts(liquidity, sqrt_price, sqrt_lower, sqrt_upper),
            PriceRegime::AboveRange => above_range_amounts(liquidity, sqrt_lower, sqrt_upper),
        }
    }
}

fn token_a_amount(sqrt_price_1: u128, sqrt_price_2: u128, liquidity: u128) -> (result: Result<
    u64,
    VaultError,
>)
    ensures
        result == token_a_between(sqrt_price_1, sqrt_price_2, liquidity),
{
    if sqrt_price_1 == 0 || sqrt_price_2 == 0 {
        return Err(VaultError::CalculationFailure);
    }
    match amount_delta_a(sqrt_price_1, sqrt_price_2, liquidity, true) {
        Some(amount) => Ok(amount),
        None => Err(VaultError::CalculationFailure),
    }
}

fn token_b_amount(sqrt_price_1: u128, sqrt_price_2: u128, liquidity: u128) -> (result: Result<
    u64,
    VaultError,
>)
    ensures
        result == token_b_between(sqrt_price_1, sqrt_price_2, liquidity),
{
    match amount_delta_b(sqrt_price_1, sqrt_price_2, liquidity, true) {
        Some(amount) => Ok(amount),
        None => Err(VaultError::CalculationFailure),
    }
}

/// Decomposes a position's liquidity into the token amounts it holds at the
/// current price. Every amount is rounded up, so that locked value is never
/// undercounted.
pub fn position_token_amounts(
    liquidity: u128,
    current_tick_index: i32,
    sqrt_price: u128,
    tick_lower_index: i32,
    tick_upper_index: i32,
) -> (result: Result<(u64, u64), VaultError>)
    ensures
        result == position_amounts(
            liquidity,
            current_tick_index,
            sqrt_price,
            tick_lower_index,
            tick_upper_index,
        ),
{
    if tick_lower_index == i32::MIN || tick_upper_index == i32::MIN {
        return Err(VaultError::CalculationFailure);
    }
    let sqrt_lower = sqrt_price_from_tick(tick_lower_index);
    let sqrt_upper = sqrt_price_from_tick(tick_upper_index);
    match price_regime(current_tick_index, tick_lower_index, tick_upper_index) {
        PriceRegime::BelowRange => {
            let token_a = token_a_amount(sqrt_lower, sqrt_upper, liquidity)?;
            Ok((token_a, 0))
        },
        PriceRegime::InRange => {
            let token_a = token_a_amount(sqrt_price, sqrt_upper, liquidity)?;
            let token_b = token_b_amount(sqrt_lower, sqrt_price, liquidity)?;
            Ok((token_a, token_b))
        },
        PriceRegime::AboveRange => {
            let token_b = token_b_amount(sqrt_lower, sqrt_upper, liquidity)?;
            Ok((0, token_b))
        },
    }
}

/// A tick equal to the lower bound of a well-ordered range is inside the
/// range, so the position is split as the in-range regime splits it.
pub proof fn lemma_lower_bound_is_in_range(
    liquidity: u128,
    sqrt_price: u128,
    tick_lower_index: i32,
    tick_upper_index: i32,
)
    requires
        i32::MIN < tick_lower_index < tick_upper_index,
    ensures
        regime_of(tick_lower_index, tick_lower_index, tick_upper_index) == PriceRegime::InRange,
        position_amounts(
            liquidity,
            tick_lower_index,
            sqrt_price,
            tick_lower_index,
            tick_upper_index,
        ) == in_range_amounts(
            liquidity,
            sqrt_price,
            tick_sqrt_price(tick_lower_index),
            tick_sqrt_price(tick_upper_index),
        ),
{
}

/// With the price exactly at the lower bound, the in-range split holds no
/// token B, and it is the split of every tick below the range: the
/// decomposition does not jump where the price enters the range.
pub proof fn lemma_split_at_lower_bound(
    liquidity: u128,
    tick_below: i32,
    sqrt_price_below: u128,
    tick_lower_index: i32,
    tick_upper_index: i32,
)
    requires
        i32::MIN < tick_lower_index < tick_upper_index,
        tick_below < tick_lower_index,
    ensures
        position_amounts(
            liquidity,
            tick_lower_index,
            tick_sqrt_price(tick_lower_index),
            tick_lower_index,
            tick_upper_index,
        ) == position_amounts(
            liquidity,
            tick_below,
            sqrt_price_below,
            tick_lower_index,
            tick_upper_index,
        ),
        position_amounts(
            liquidity,
            tick_lower_index,
            tick_sqrt_price(tick_lower_index),
            tick_lower_index,
            tick_upper_index,
        ) matches Ok(amounts) ==> amounts.1 == 0,
{
}

/// Idle balances plus what the position holds, token by token. It is a
/// failure when either sum leaves 64 bits.
pub open spec fn combined_amounts(
    vault_token_a_amount: u64,
    vault_token_b_amount: u64,
    position_token_a_amount: u64,
    position_token_b_amount: u64,
) -> Result<(u64, u64), VaultError> {
    if vault_token_a_amount + position_token_a_amount > u64::MAX || vault_token_b_amount
        + position_token_b_amount > u64::MAX {
        Err(VaultError::CalculationFailure)
    } else {
        Ok(
            (
                (vault_token_a_amount + position_token_a_amount) as u64,
                (vault_token_b_amount + position_token_b_amount) as u64,
            ),
        )
    }
}

/// Adds the amounts inside the position to the idle balances.
pub fn combine_amounts(
    vault_token_a_amount: u64,
    vault_token_b_amount: u64,
    position_token_a_amount: u64,
    position_token_b_amount: u64,
) -> (result: Result<(u64, u64), VaultError>)
    ensures
        result == combined_amounts(
            vault_token_a_amount,
            vault_token_b_amount,
            position_token_a_amount,
            position_token_b_amount,
        ),
{
    let total_token_a_amount = match vault_token_a_amount.checked_add(position_token_a_amount) {
        Some(total) => total,
        None => { return Err(VaultError::CalculationFailure); },
    };
    let total_token_b_amount = match vault_token_b_amount.checked_add(position_token_b_amount) {
        Some(total) => total,
        None => { return Err(VaultError::CalculationFailure); },
    };
    Ok((total_token_a_amount, total_token_b_amount))
}

/// The fund's total of each token when it has an open position: the idle
/// balances plus the decomposed position.
pub open spec fn total_tokens(
    vault_token_a_amount: u64,
    vault_token_b_amount: u64,
    position_liquidity: u128,
    current_tick_index: i32,
    sqrt_price: u128,
    tick_lower_index: i32,
    tick_upper_index: i32,
) -> Result<(u64, u64), VaultError> {
    match position_amounts(
        position_liquidity,
        current_tick_index,
        sqrt_price,
        tick_lower_index,
        tick_upper_index,
    ) {
        Ok(position) => combined_amounts(
            vault_token_a_amount,
            vault_token_b_amount,
            position.0,
            position.1,
        ),
        Err(e) => Err(e),
    }
}

/// Values a fund that has an open position: decomposes the position at the
/// current price and adds the idle balances.
pub fn calculate_total_tokens(
    vault_token_a_amount: u64,
    vault_token_b_amount: u64,
    position_liquidity: u128,
    current_tick_index: i32,
    sqrt_price: u128,
    tick_lower_index: i32,
    tick_upper_index: i32,
) -> (result: Result<(u64, u64), VaultError>)
    ensures
        result == total_tokens(
            vault_token_a_amount,
            vault_token_b_amount,
            position_liquidity,
            current_tick_index,
            sqrt_price,
            tick_lower_index,
            tick_upper_index,
        ),
{
    let (position_token_a_amount, position_token_b_amount) = position_token_amounts(
        position_liquidity,
        current_tick_index,
        sqrt_price,
        tick_lower_index,
        tick_upper_index,
    )?;
    combine_amounts(
        vault_token_a_amount,
        vault_token_b_amount,
        position_token_a_amount,
        position_token_b_amount,
    )
}

/// The fund's total of each token: the idle balances alone when there is
/// no position, else the idle balances plus the decomposed position.
pub open spec fn total_value(
    vault_token_a_amount: u64,
    vault_token_b_amount: u64,
    position: PositionSnapshot,
    market: MarketSnapshot,
) -> Result<(u64, u64), VaultError> {
    match position {
        PositionSnapshot::NoPosition => Ok((vault_token_a_amount, vault_token_b_amount)),
        PositionSnapshot::Position { liquidity, tick_lower_index, tick_upper_index } => total_tokens(
            vault_token_a_amount,
            vault_token_b_amount,
            liquidity,
            market.tick_current_index,
            market.sqrt_price,
            tick_lower_index,
            tick_upper_index,
        ),
    }
}

/// Values the whole fund from one snapshot of custody, position and market.
pub fn total_fund_value(
    vault_token_a_amount: u64,
    vault_token_b_amount: u64,
    position: &PositionSnapshot,
    market: &MarketSnapshot,
) -> (result: Result<(u64, u64), VaultError>)
    ensures
        result == total_value(vault_token_a_amount, vault_token_b_amount, *position, *market),
{
    match position {
        PositionSnapshot::NoPosition => Ok((vault_token_a_amount, vault_token_b_amount)),
        PositionSnapshot::Position { liquidity, tick_lower_index, tick_upper_index } => {
            calculate_total_tokens(
                vault_token_a_amount,
                vault_token_b_amount,
                *liquidity,
                market.tick_current_index,
                market.sqrt_price,
                *tick_lower_index,
                *tick_upper_index,
            )
        },
    }
}

/// The value of a pair of token amounts at the administrator's unit prices.
pub open spec fn price_weighted_value(amount_a: u64, amount_b: u64, price_a: u64, price_b: u64) -> int {
    amount_a * price_a + amount_b * price_b
}

/// The shares a deposit is owed.
///
/// With no shares outstanding the deposit sets the ratio of shares to value:
/// it mints its own price-weighted value. Otherwise it mints the share
/// supply times the deposit's value over the fund's value before the
/// deposit, multiplied before it is divided. Either way the amount is then
/// scaled down by ten to the power of `decimal`. All of it is rounded down.
///
/// It is an error when a value, the product with the supply, the scaling
/// unit or the scaled amount leaves its width (128 bits, 64 for the
/// result), or when the fund has shares outstanding and no value.
pub open spec fn shares_to_mint(
    amount_a: u64,
    amount_b: u64,
    total_token_a_amount: u64,
    total_token_b_amount: u64,
    price_a: u64,
    price_b: u64,
    total_shares: u64,
    decimal: u8,
) -> Result<u64, VaultError> {
    let deposit = price_weighted_value(amount_a, amount_b, price_a, price_b);
    let total = price_weighted_value(total_token_a_amount, total_token_b_amount, price_a, price_b);
    let unit = pow(10, decimal as nat);
    if total_shares == 0 {
        if deposit > u128::MAX || unit > u128::MAX || deposit / unit > u64::MAX {
            Err(VaultError::ArithmeticOverflow)
        } else {
            Ok((deposit / unit) as u64)
        }
    } else {
        if deposit > u128::MAX || total > u128::MAX || total == 0 || deposit * total_shares
            > u128::MAX || unit > u128::MAX || (deposit * total_shares / total) / unit > u64::MAX {
            Err(VaultError::ArithmeticOverflow)
        } else {
            Ok(((deposit * total_shares / total) / unit) as u64)
        }
    }
}

fn weighted_value(amount_a: u64, amount_b: u64, price_a: u64, price_b: u64) -> (result: Result<
    TokenAmount,
    VaultError,
>)
    ensures
        price_weighted_value(amount_a, amount_b, price_a, price_b) <= u128::MAX ==> (
        result matches Ok(value) && value@ == price_weighted_value(
            amount_a,
            amount_b,
            price_a,
            price_b,
        )),
        price_weighted_value(amount_a, amount_b, price_a, price_b) > u128::MAX ==> result == Err::<
            TokenAmount,
            VaultError,
        >(VaultError::ArithmeticOverflow),
{
    proof {
        lemma_u64_product_fits(amount_a, price_a);
        lemma_u64_product_fits(amount_b, price_b);
    }
    let value_a = TokenAmount::new(amount_a).multiply(price_a)?;
    let value_b = TokenAmount::new(amount_b).multiply(price_b)?;
    value_a.plus(&value_b)
}

/// Computes the shares to mint for a deposit, from the fund's value before
/// the deposit, in the wide accumulator throughout.
pub fn calculate_shares(
    amount_a: u64,
    amount_b: u64,
    total_token_a_amount: u64,
    total_token_b_amount: u64,
    price_a: u64,
    price_b: u64,
    total_shares: u64,
    decimal: u8,
) -> (result: Result<u64, VaultError>)
    ensures
        result == shares_to_mint(
            amount_a,
            amount_b,
            total_token_a_amount,
            total_token_b_amount,
            price_a,
            price_b,
            total_shares,
            decimal,
        ),
{
    proof {
        lemma_pow_positive(10, decimal as nat);
    }
    let deposit_value = weighted_value(amount_a, amount_b, price_a, price_b)?;
    let share_amount = if total_shares == 0 {
        deposit_value
    } else {
        let total_value = weighted_value(
            total_token_a_amount,
            total_token_b_amount,
            price_a,
            price_b,
        )?;
        deposit_value.multiply(total_shares)?.divide_by(&total_value)?
    };
    let unit = TokenAmount::power_of_ten(decimal)?;
    share_amount.divide_by(&unit)?.to_u64()
}

/// The first deposit into a fund without shares mints a positive amount
/// exactly when its value reaches the scaling unit and neither the value
/// nor the scaled amount leaves its width. The amount is the value scaled
/// down, whatever the fund already holds.
pub proof fn lemma_first_deposit_mints_its_value(
    amount_a: u64,
    amount_b: u64,
    total_token_a_amount: u64,
    total_token_b_amount: u64,
    price_a: u64,
    price_b: u64,
    decimal: u8,
)
    ensures
        ({
            let value = price_weighted_value(amount_a, amount_b, price_a, price_b);
            let unit = pow(10, decimal as nat);
            let minted = shares_to_mint(
                amount_a,
                amount_b,
                total_token_a_amount,
                total_token_b_amount,
                price_a,
                price_b,
                0,
                decimal,
            );
            &&& unit > 0
            &&& (minted matches Ok(shares) && shares > 0) <==> (unit <= value <= u128::MAX && value
                / unit <= u64::MAX)
            &&& minted matches Ok(shares) ==> shares == value / unit
        }),
{
    let value = price_weighted_value(amount_a, amount_b, price_a, price_b);
    let unit = pow(10, decimal as nat);
    lemma_pow_positive(10, decimal as nat);
    assert(0 <= value) by (nonlinear_arith)
        requires
            value == amount_a * price_a + amount_b * price_b,
    ;
    lemma_floor_bounds(value, unit);
    if value < unit {
        assert(value / unit == 0) by (nonlinear_arith)
            requires
                0 <= value < unit,
                0 <= value / unit,
                (value / unit) * unit <= value,
        ;
    } else {
        assert(value / unit >= 1) by (nonlinear_arith)
            requires
                0 < unit <= value,
                value < (value / unit + 1) * unit,
        ;
    }
}

/// The shares a deposit mints are its proportional claim rounded down.
///
/// With shares outstanding the claim is the deposit's value times the
/// supply over the fund's value times the scaling unit; without, it is the
/// deposit's value over the unit. Stated without division, for the minted
/// amount `s`: `s * divisor <= value * factor < (s + 1) * divisor`.
pub proof fn lemma_minted_shares_are_proportional(
    amount_a: u64,
    amount_b: u64,
    total_token_a_amount: u64,
    total_token_b_amount: u64,
    price_a: u64,
    price_b: u64,
    total_shares: u64,
    decimal: u8,
)
    requires
        shares_to_mint(
            amount_a,
            amount_b,
            total_token_a_amount,
            total_token_b_amount,
            price_a,
            price_b,
            total_shares,
            decimal,
        ) is Ok,
    ensures
        ({
            let minted = shares_to_mint(
                amount_a,
                amount_b,
                total_token_a_amount,
                total_token_b_amount,
                price_a,
                price_b,
                total_shares,
                decimal,
            )->Ok_0;
            let value = price_weighted_value(amount_a, amount_b, price_a, price_b);
            let factor = claim_factor(total_shares);
            let divisor = claim_divisor(
                total_token_a_amount,
                total_token_b_amount,
                price_a,
                price_b,
                total_shares,
                decimal,
            );
            &&& 0 <= value
            &&& 0 < factor
            &&& 0 < divisor
            &&& minted * divisor <= value * factor < (minted + 1) * divisor
        }),
{
    let value = price_weighted_value(amount_a, amount_b, price_a, price_b);
    let total = price_weighted_value(total_token_a_amount, total_token_b_amount, price_a, price_b);
    let unit = pow(10, decimal as nat);
    lemma_pow_positive(10, decimal as nat);
    assert(0 <= value) by (nonlinear_arith)
        requires
            value == amount_a * price_a + amount_b * price_b,
    ;
    assert(0 <= total) by (nonlinear_arith)
        requires
            total == total_token_a_amount * price_a + total_token_b_amount * price_b,
    ;
    if total_shares == 0 {
        assert(value * 1 == value) by (nonlinear_arith);
        lemma_floor_bounds(value, unit);
    } else {
        let scaled = value * total_shares;
        assert(0 <= scaled) by (nonlinear_arith)
            requires
                0 <= value,
                0 <= total_shares,
                scaled == value * total_shares,
        ;
        lemma_mul_strictly_positive(total, unit);
        lemma_div_denominator(scaled, total, unit);
        lemma_floor_bounds(scaled, total * unit);
    }
}

/// What a deposit's value is multiplied by to give its claim on shares.
pub open spec fn claim_factor(total_shares: u64) -> int {
    if total_shares == 0 {
        1
    } else {
        total_shares as int
    }
}

/// What a deposit's value, times the claim factor, is divided by to give
/// the shares it mints.
pub open spec fn claim_divisor(
    total_token_a_amount: u64,
    total_token_b_amount: u64,
    price_a: u64,
    price_b: u64,
    total_shares: u64,
    decimal: u8,
) -> int {
    if total_shares == 0 {
        pow(10, decimal as nat)
    } else {
        price_weighted_value(total_token_a_amount, total_token_b_amount, price_a, price_b) * pow(
            10,
            decimal as nat,
        )
    }
}

/// Two deposits valued against the same fund, at the same prices, mint
/// shares in proportion to their price-weighted values, up to the rounding
/// of one share: a deposit of no less value mints no fewer shares, and
/// `shares_1 * value_2 <= (shares_2 + 1) * value_1`, which with the two
/// deposits exchanged bounds the ratio from the other side.
pub proof fn lemma_shares_proportional_to_value(
    amount_a_1: u64,
    amount_b_1: u64,
    amount_a_2: u64,
    amount_b_2: u64,
    total_token_a_amount: u64,
    total_token_b_amount: u64,
    price_a: u64,
    price_b: u64,
    total_shares: u64,
    decimal: u8,
)
    requires
        shares_to_mint(
            amount_a_1,
            amount_b_1,
            total_token_a_amount,
            total_token_b_amount,
            price_a,
            price_b,
            total_shares,
            decimal,
        ) is Ok,
        shares_to_mint(
            amount_a_2,
            amount_b_2,
            total_token_a_amount,
            total_token_b_amount,
            price_a,
            price_b,
            total_shares,
            decimal,
        ) is Ok,
    ensures
        ({
            let shares_1 = shares_to_mint(
                amount_a_1,
                amount_b_1,
                total_token_a_amount,
                total_token_b_amount,
                price_a,
                price_b,
                total_shares,
                decimal,
            )->Ok_0;
            let shares_2 = shares_to_mint(
                amount_a_2,
                amount_b_2,
                total_token_a_amount,
                total_token_b_amount,
                price_a,
                price_b,
                total_shares,
                decimal,
            )->Ok_0;
            let value_1 = price_weighted_value(amount_a_1, amount_b_1, price_a, price_b);
            let value_2 = price_weighted_value(amount_a_2, amount_b_2, price_a, price_b);
            &&& value_1 <= value_2 ==> shares_1 <= shares_2
            &&& shares_1 * value_2 <= (shares_2 + 1) * value_1
        }),
{
    let shares_1 = shares_to_mint(
        amount_a_1,
        amount_b_1,
        total_token_a_amount,
        total_token_b_amount,
        price_a,
        price_b,
        total_shares,
        decimal,
    )->Ok_0 as int;
    let shares_2 = shares_to_mint(
        amount_a_2,
        amount_b_2,
        total_token_a_amount,
        total_token_b_amount,
        price_a,
        price_b,
        total_shares,
        decimal,
    )->Ok_0 as int;
    let value_1 = price_weighted_value(amount_a_1, amount_b_1, price_a, price_b);
    let value_2 = price_weighted_value(amount_a_2, amount_b_2, price_a, price_b);
    let factor = claim_factor(total_shares);
    let divisor = claim_divisor(
        total_token_a_amount,
        total_token_b_amount,
        price_a,
        price_b,
        total_shares,
        decimal,
    );
    lemma_minted_shares_are_proportional(
        amount_a_1,
        amount_b_1,
        total_token_a_amount,
        total_token_b_amount,
        price_a,
        price_b,
        total_shares,
        decimal,
    );
    lemma_minted_shares_are_proportional(
        amount_a_2,
        amount_b_2,
        total_token_a_amount,
        total_token_b_amount,
        price_a,
        price_b,
        total_shares,
        decimal,
    );
    if value_1 <= value_2 {
        assert(shares_1 <= shares_2) by (nonlinear_arith)
            requires
                0 <= value_1 <= value_2,
                0 < factor,
                0 < divisor,
                shares_1 * divisor <= value_1 * factor,
                value_2 * factor < (shares_2 + 1) * divisor,
        ;
    }
    assert(shares_1 * value_2 <= (shares_2 + 1) * value_1) by (nonlinear_arith)
        requires
            0 <= value_1,
            0 <= value_2,
            0 <= shares_1,
            0 <= shares_2,
            0 < factor,
            0 < divisor,
            shares_1 * divisor <= value_1 * factor,
            value_2 * factor < (shares_2 + 1) * divisor,
    ;
}

} // verus!
