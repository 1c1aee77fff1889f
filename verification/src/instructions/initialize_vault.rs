use vstd::prelude::*;
use crate::state::vault::{Address, Vault};

verus! {

/// What the accounts of a new fund say about it: who they are, and the
/// decimal precision of the two reserve tokens.
#[derive(Debug, Clone, Copy)]
pub struct VaultAccounts {
    pub admin: Address,
    pub whirlpool: Address,
    pub token_a_mint: Address,
    pub token_b_mint: Address,
    pub token_a_vault: Address,
    pub token_b_vault: Address,
    pub share_mint: Address,
    pub token_a_decimal: u8,
    pub token_b_decimal: u8,
    pub bump: u8,
}

/// Creates the record of a fund, once per market, from its accounts and the
/// administrator's prices and price range.
pub fn initialize_vault(
    accounts: &VaultAccounts,
    token_a_price: u64,
    token_b_price: u64,
    lower_tick: i32,
    upper_tick: i32,
) -> (vault: Vault)
    ensures
        vault == (Vault {
            admin: accounts.admin,
            whirlpool: accounts.whirlpool,
            token_a_mint: accounts.token_a_mint,
            token_b_mint: accounts.token_b_mint,
            token_a_vault: accounts.token_a_vault,
            token_b_vault: accounts.token_b_vault,
            share_mint: accounts.share_mint,
            token_a_price,
            token_b_price,
            token_a_decimal: accounts.token_a_decimal,
            token_b_decimal: accounts.token_b_decimal,
            lower_tick,
            upper_tick,
            bump: accounts.bump,
        }),
{
    Vault {
        admin: accounts.admin,
        whirlpool: accounts.whirlpool,
        token_a_mint: accounts.token_a_mint,
        token_b_mint: accounts.token_b_mint,
        token_a_vault: accounts.token_a_vault,
        token_b_vault: accounts.token_b_vault,
        share_mint: accounts.share_mint,
        token_a_price,
        token_b_price,
        token_a_decimal: accounts.token_a_decimal,
        token_b_decimal: accounts.token_b_decimal,
        lower_tick,
        upper_tick,
        bump: accounts.bump,
    }
}

} // verus!
