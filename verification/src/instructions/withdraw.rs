use vstd::prelude::*;
use crate::errors::VaultError;
use crate::instructions::custody::{plan_withdrawal, withdraw_instructions, CustodyInstruction};
use crate::state::snapshot::{CustodySnapshot, MarketSnapshot};
use crate::state::vault::Vault;
use crate::util::redemption::{calculate_redemption, redemption, Redemption};
use crate::util::utils::{total_fund_value, total_value};

verus! {

/// A withdrawal that has been computed and not yet carried out.
#[derive(Debug)]
pub struct WithdrawPlan {
    /// What the withdrawal pays and burns.
    pub redemption: Redemption,
    /// What custody is to do, in order.
    pub instructions: Vec<CustodyInstruction>,
}

/// What a withdrawal from the fund pays and burns: the fund is valued as
/// the snapshot shows it, and the shares are redeemed against that value
/// and the idle balances of the same snapshot.
pub open spec fn withdraw_outcome(
    vault: Vault,
    custody: CustodySnapshot,
    market: MarketSnapshot,
    position_liquidity: Option<u128>,
    share_amount: u64,
    token_min_a_amount: u64,
    token_min_b_amount: u64,
) -> Result<Redemption, VaultError> {
    match total_value(
        custody.token_a_amount,
        custody.token_b_amount,
        vault.position_snapshot(position_liquidity),
        market,
    ) {
        Ok(totals) => redemption(
            share_amount,
            custody.share_supply,
            totals.0,
            totals.1,
            custody.token_a_amount,
            custody.token_b_amount,
            token_min_a_amount,
            token_min_b_amount,
        ),
        Err(e) => Err(e),
    }
}

/// Computes a withdrawal of `share_amount` shares from one snapshot of the
/// fund. On success the plan pays out the tokens and burns the shares; on
/// failure there is no plan, and nothing is to be moved.
pub fn withdraw(
    vault: &Vault,
    custody: &CustodySnapshot,
    market: &MarketSnapshot,
    position_liquidity: Option<u128>,
    share_amount: u64,
    token_min_a_amount: u64,
    token_min_b_amount: u64,
) -> (result: Result<WithdrawPlan, VaultError>)
    ensures
        match withdraw_outcome(
            *vault,
            *custody,
            *market,
            position_liquidity,
            share_amount,
            token_min_a_amount,
            token_min_b_amount,
        ) {
            Ok(paid) => result matches Ok(plan) && plan.redemption == paid && plan.instructions@
                == withdraw_instructions(paid.token_a_amount, paid.token_b_amount, paid.burn_amount),
            Err(e) => result matches Err(error) && error == e,
        },
{
    let position = vault.position_snapshot(position_liquidity);
    let (total_token_a_amount, total_token_b_amount) = total_fund_value(
        custody.token_a_amount,
        custody.token_b_amount,
        &position,
        market,
    )?;
    let paid = calculate_redemption(
        share_amount,
        custody.share_supply,
        total_token_a_amount,
        total_token_b_amount,
        custody.token_a_amount,
        custody.token_b_amount,
        token_min_a_amount,
        token_min_b_amount,
    )?;
    Ok(
        WithdrawPlan {
            redemption: paid,
            instructions: plan_withdrawal(
                paid.token_a_amount,
                paid.token_b_amount,
                paid.burn_amount,
            ),
        },
    )
}

} // verus!
