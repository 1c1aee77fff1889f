use vstd::prelude::*;
use crate::state::vault::Vault;

verus! {

/// Sets the bounds of the price range in which the fund keeps its position.
/// Only the administrator may ask for it; the bounds are taken as given.
pub fn update_ticks(vault: &mut Vault, lower_tick: i32, upper_tick: i32)
    ensures
        *final(vault) == (Vault { lower_tick, upper_tick, ..*old(vault) }),
{
    vault.lower_tick = lower_tick;
    vault.upper_tick = upper_tick;
}

} // verus!
