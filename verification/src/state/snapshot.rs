use vstd::prelude::*;

verus! {

/// The market's price at the start of an operation.
#[derive(Debug, Clone, Copy, PartialEq, Eq, Structural)]
pub struct MarketSnapshot {
    /// The current square-root price, as a Q64.64 number.
    pub sqrt_price: u128,
    /// The tick index that the current price lies in.
    pub tick_current_index: i32,
}

/// The fund's liquidity position at the start of an operation, if it has one.
#[derive(Debug, Clone, Copy, PartialEq, Eq, Structural)]
pub enum PositionSnapshot {
    /// The fund holds idle balances only.
    NoPosition,
    /// The fund has liquidity in the price range between two ticks.
    Position { liquidity: u128, tick_lower_index: i32, tick_upper_index: i32 },
}

/// What custody holds for the fund at the start of an operation.
#[derive(Debug, Clone, Copy, PartialEq, Eq, Structural)]
pub struct CustodySnapshot {
    /// The idle balance of token A.
    pub token_a_amount: u64,
    /// The idle balance of token B.
    pub token_b_amount: u64,
    /// The shares outstanding.
    pub share_supply: u64,
}

} // verus!
