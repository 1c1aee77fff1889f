use vstd::prelude::*;

verus! {

/// What the fund asks of the liquidity protocol when it takes liquidity out
/// of its position.
#[derive(Debug, Clone, Copy, PartialEq, Eq, Structural)]
pub struct DecreaseLiquidityRequest {
    /// The liquidity to take out.
    pub liquidity_amount: u128,
    /// The least token A the fund accepts for it.
    pub token_min_a: u64,
    /// The least token B the fund accepts for it.
    pub token_min_b: u64,
}

/// The fund takes out all of the position's liquidity at once, and accepts
/// whatever amounts of the two tokens that liquidity is worth.
pub fn remove_liquidity(position_liquidity: u128) -> (request: DecreaseLiquidityRequest)
    ensures
        request == (DecreaseLiquidityRequest {
            liquidity_amount: position_liquidity,
            token_min_a: 0,
            token_min_b: 0,
        }),
{
    DecreaseLiquidityRequest { liquidity_amount: position_liquidity, token_min_a: 0, token_min_b: 0 }
}

} // verus!
