use vstd::prelude::*;
use crate::state::snapshot::PositionSnapshot;

verus! {

/// The address of an account or of a token mint.
pub type Address = [u8; 32];

/// The fund record: who administers the fund, where its tokens are held,
/// and the accounting inputs the administrator has set. Prices and decimals
/// are taken as given; nothing checks them against a live market.
#[derive(Debug, Clone, Copy)]
pub struct Vault {
    pub admin: Address,
    pub whirlpool: Address,
    pub token_a_mint: Address,
    pub token_b_mint: Address,
    pub token_a_vault: Address,
    pub token_b_vault: Address,
    pub share_mint: Address,
    pub token_a_price: u64,
    pub token_b_price: u64,
    pub token_a_decimal: u8,
    pub token_b_decimal: u8,
    pub lower_tick: i32,
    pub upper_tick: i32,
    pub bump: u8,
}

impl Vault {
    /// The number of bytes the record occupies when stored.
    pub const LEN: usize = 32 + 32 + 32 + 32 + 32 + 32 + 32 + 8 + 8 + 1 + 1 + 4 + 4 + 1;

    /// The higher of the two tokens' decimal precisions.
    pub open spec fn spec_max_decimal(&self) -> u8 {
        if self.token_a_decimal >= self.token_b_decimal {
            self.token_a_decimal
        } else {
            self.token_b_decimal
        }
    }

    /// The fund's position, given the liquidity of the position account if
    /// there is one: its price range is the fund's configured range.
    pub open spec fn spec_position_snapshot(&self, position_liquidity: Option<u128>) -> PositionSnapshot {
        match position_liquidity {
            Some(liquidity) => PositionSnapshot::Position {
                liquidity,
                tick_lower_index: self.lower_tick,
                tick_upper_index: self.upper_tick,
            },
            None => PositionSnapshot::NoPosition,
        }
    }

    /// Pairs the liquidity of the position account, if there is one, with
    /// the fund's configured price range.
    #[verifier::when_used_as_spec(spec_position_snapshot)]
    pub fn position_snapshot(&self, position_liquidity: Option<u128>) -> (position: PositionSnapshot)
        ensures
            position == self.spec_position_snapshot(position_liquidity),
    {
        match position_liquidity {
            Some(liquidity) => PositionSnapshot::Position {
                liquidity,
                tick_lower_index: self.lower_tick,
                tick_upper_index: self.upper_tick,
            },
            None => PositionSnapshot::NoPosition,
        }
    }

    /// The higher of the two tokens' decimal precisions, by which share
    /// amounts are scaled.
    #[verifier::when_used_as_spec(spec_max_decimal)]
    pub fn max_decimal(&self) -> (decimal: u8)
        ensures
            decimal == self.spec_max_decimal(),
    {
        if self.token_a_decimal >= self.token_b_decimal {
            self.token_a_decimal
        } else {
            self.token_b_decimal
        }
    }
}

} // verus!
