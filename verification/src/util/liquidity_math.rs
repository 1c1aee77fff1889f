use vstd::prelude::*;

verus! {

/// The square-root price, as a Q64.64 number, that the liquidity curve
/// assigns to a tick index.
pub uninterp spec fn tick_sqrt_price(tick_index: i32) -> u128;

/// The amount of token A that `liquidity` holds between two square-root
/// prices, or `None` where the curve rejects the inputs.
pub uninterp spec fn delta_amount_a(
    sqrt_price_1: u128,
    sqrt_price_2: u128,
    liquidity: u128,
    round_up: bool,
) -> Option<u64>;

/// The amount of token B that `liquidity` holds between two distinct
/// square-root prices, or `None` where the curve rejects the inputs.
pub uninterp spec fn delta_amount_b(
    sqrt_price_1: u128,
    sqrt_price_2: u128,
    liquidity: u128,
    round_up: bool,
) -> Option<u64>;

/// The amount of token B between two square-root prices: nothing lies
/// between a price and itself, whatever the liquidity.
pub open spec fn token_b_delta(
    sqrt_price_1: u128,
    sqrt_price_2: u128,
    liquidity: u128,
    round_up: bool,
) -> Option<u64> {
    if sqrt_price_1 == sqrt_price_2 {
        Some(0u64)
    } else {
        delta_amount_b(sqrt_price_1, sqrt_price_2, liquidity, round_up)
    }
}

/// Calls `orca_whirlpools_core::tick_index_to_sqrt_price`.
///
/// Trusted: the conversion is a pure function of the tick index. The most
/// negative index is left out because the conversion takes the magnitude of
/// a negative index, which that index does not have.
#[verifier::external_body]
pub(crate) fn sqrt_price_from_tick(tick_index: i32) -> (sqrt_price: u128)
    requires
        tick_index > i32::MIN,
    ensures
        sqrt_price == tick_sqrt_price(tick_index),
{
    orca_whirlpools_core::tick_index_to_sqrt_price(tick_index).into()
}

/// Calls `orca_whirlpools_core::try_get_amount_delta_a`, turning its error
/// into `None`.
///
/// Trusted: the amount is a pure function of the four arguments. Both prices
/// must be non-zero, because the amount is a quotient whose divisor is their
/// product.
#[verifier::external_body]
pub(crate) fn amount_delta_a(
    sqrt_price_1: u128,
    sqrt_price_2: u128,
    liquidity: u128,
    round_up: bool,
) -> (amount: Option<u64>)
    requires
        sqrt_price_1 != 0,
        sqrt_price_2 != 0,
    ensures
        amount == delta_amount_a(sqrt_price_1, sqrt_price_2, liquidity, round_up),
{
    orca_whirlpools_core::try_get_amount_delta_a(
        sqrt_price_1.into(),
        sqrt_price_2.into(),
        liquidity.into(),
        round_up,
    ).ok()
}

/// Calls `orca_whirlpools_core::try_get_amount_delta_b`, turning its error
/// into `None`.
///
/// Trusted: the amount is a pure function of the four arguments, and it is
/// zero when the two prices are equal, since it is the liquidity times the
/// distance between the prices, scaled down.
#[verifier::external_body]
pub(crate) fn amount_delta_b(
    sqrt_price_1: u128,
    sqrt_price_2: u128,
    liquidity: u128,
    round_up: bool,
) -> (amount: Option<u64>)
    ensures
        sqrt_price_1 == sqrt_price_2 ==> amount == Some(0u64),
        sqrt_price_1 != sqrt_price_2 ==> amount == delta_amount_b(
            sqrt_price_1,
            sqrt_price_2,
            liquidity,
            round_up,
        ),
{
    orca_whirlpools_core::try_get_amount_delta_b(
        sqrt_price_1.into(),
        sqrt_price_2.into(),
        liquidity.into(),
        round_up,
    ).ok()
}

} // verus!
