use vstd::prelude::*;
use crate::state::vault::Vault;

verus! {

/// What the fund asks of the liquidity protocol when it opens its position.
#[derive(Debug, Clone, Copy, PartialEq, Eq, Structural)]
pub struct OpenPositionRequest {
    /// The lower bound of the position's price range.
    pub tick_lower_index: i32,
    /// The upper bound of the position's price range.
    pub tick_upper_index: i32,
    /// The bump of the position's address, which the protocol derives itself.
    pub position_bump: u8,
}

/// The fund's position is opened over the price range that the fund record
/// holds, and over no other.
pub fn open_position(vault: &Vault) -> (request: OpenPositionRequest)
    ensures
        request == (OpenPositionRequest {
            tick_lower_index: vault.lower_tick,
            tick_upper_index: vault.upper_tick,
            position_bump: 0,
        }),
{
    OpenPositionRequest {
        tick_lower_index: vault.lower_tick,
        tick_upper_index: vault.upper_tick,
        position_bump: 0,
    }
}

} // verus!
