use vstd::prelude::*;
use crate::errors::VaultError;
use crate::instructions::custody::{deposit_instructions, plan_deposit, CustodyInstruction};
use crate::state::snapshot::{CustodySnapshot, MarketSnapshot};
use crate::state::vault::Vault;
use crate::util::utils::{calculate_shares, shares_to_mint, total_fund_value, total_value};

verus! {

/// A deposit that has been computed and not yet carried out.
#[derive(Debug)]
pub struct DepositPlan {
    /// The shares the deposit mints.
    pub share_amount: u64,
    /// What custody is to do, in order.
    pub instructions: Vec<CustodyInstruction>,
}

/// The shares that a deposit into the fund mints: the fund is valued as the
/// snapshot shows it, before the deposit, and the deposit is held against
/// that value at the fund's prices.
pub open spec fn deposit_outcome(
    vault: Vault,
    custody: CustodySnapshot,
    market: MarketSnapshot,
    position_liquidity: Option<u128>,
    amount_a: u64,
    amount_b: u64,
) -> Result<u64, VaultError> {
    match total_value(
        custody.token_a_amount,
        custody.token_b_amount,
        vault.position_snapshot(position_liquidity),
        market,
    ) {
        Ok(totals) => shares_to_mint(
            amount_a,
            amount_b,
            totals.0,
            totals.1,
            vault.token_a_price,
            vault.token_b_price,
            custody.share_supply,
            vault.max_decimal(),
        ),
        Err(e) => Err(e),
    }
}

/// Computes a deposit of `amount_a` and `amount_b` from one snapshot of the
/// fund. On success the plan takes in the tokens and mints the shares; on
/// failure there is no plan, and nothing is to be moved.
pub fn deposit(
    vault: &Vault,
    custody: &CustodySnapshot,
    market: &MarketSnapshot,
    position_liquidity: Option<u128>,
    amount_a: u64,
    amount_b: u64,
) -> (result: Result<DepositPlan, VaultError>)
    ensures
        match deposit_outcome(*vault, *custody, *market, position_liquidity, amount_a, amount_b) {
            Ok(share_amount) => result matches Ok(plan) && plan.share_amount == share_amount
                && plan.instructions@ == deposit_instructions(amount_a, amount_b, share_amount),
            Err(e) => result matches Err(error) && error == e,
        },
{
    let position = vault.position_snapshot(position_liquidity);
    let (total_token_a_amount, total_token_b_amount) = total_fund_value(
        custody.token_a_amount,
        custody.token_b_amount,
        &position,
        market,
    )?;
    let share_amount = calculate_shares(
        amount_a,
        amount_b,
        total_token_a_amount,
        total_token_b_amount,
        vault.token_a_price,
        vault.token_b_price,
        custody.share_supply,
        vault.max_decimal(),
    )?;
    Ok(DepositPlan { share_amount, instructions: plan_deposit(amount_a, amount_b, share_amount) })
}

} // verus!
