use vstd::prelude::*;
use crate::state::vault::Vault;

verus! {

/// Sets the unit prices at which the fund values its two tokens. Only the
/// administrator may ask for it; the prices are taken as given.
pub fn update_prices(vault: &mut Vault, token_a_price: u64, token_b_price: u64)
    ensures
        *final(vault) == (Vault { token_a_price, token_b_price, ..*old(vault) }),
{
    vault.token_a_price = token_a_price;
    vault.token_b_price = token_b_price;
}

} // verus!
