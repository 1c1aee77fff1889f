use vstd::prelude::*;
use crate::errors::VaultError;
use crate::instructions::deposit::deposit_outcome;
use crate::instructions::withdraw::withdraw_outcome;
use crate::state::snapshot::{CustodySnapshot, MarketSnapshot};
use crate::state::vault::Vault;
use crate::util::conservation::lemma_deposit_then_withdraw_returns_no_more;
use crate::util::math::proportional_amount;
use crate::util::redemption::lemma_minimum_above_entitlement_fails;
use crate::util::utils::{price_weighted_value, total_value};

verus! {

/// What custody holds once a deposit has been carried out: the idle
/// balances and the share supply, each grown by what the deposit added.
pub open spec fn custody_after_deposit(
    custody: CustodySnapshot,
    amount_a: u64,
    amount_b: u64,
    minted: u64,
) -> CustodySnapshot {
    CustodySnapshot {
        token_a_amount: (custody.token_a_amount + amount_a) as u64,
        token_b_amount: (custody.token_b_amount + amount_b) as u64,
        share_supply: (custody.share_supply + minted) as u64,
    }
}

/// A deposit followed at once by the withdrawal of every share it minted
/// pays out, at the fund's prices, no more value than was deposited. Of a
/// token that the deposit held in at least the fund's proportion, it pays
/// out no more than was deposited.
///
/// Between the two operations custody changes by the deposit alone, and the
/// market and the position stay as they were, so that the position holds
/// what it held. The fund has shares outstanding before the deposit, or
/// holds nothing at all.
pub proof fn lemma_deposit_then_withdraw(
    vault: Vault,
    custody: CustodySnapshot,
    market: MarketSnapshot,
    position_liquidity: Option<u128>,
    amount_a: u64,
    amount_b: u64,
    token_min_a_amount: u64,
    token_min_b_amount: u64,
)
    requires
        custody.share_supply != 0 || total_value(
            custody.token_a_amount,
            custody.token_b_amount,
            vault.position_snapshot(position_liquidity),
            market,
        ) == Ok::<(u64, u64), VaultError>((0, 0)),
        deposit_outcome(vault, custody, market, position_liquidity, amount_a, amount_b) is Ok,
        custody.token_a_amount + amount_a <= u64::MAX,
        custody.token_b_amount + amount_b <= u64::MAX,
        custody.share_supply + deposit_outcome(
            vault,
            custody,
            market,
            position_liquidity,
            amount_a,
            amount_b,
        )->Ok_0 <= u64::MAX,
        withdraw_outcome(
            vault,
            custody_after_deposit(
                custody,
                amount_a,
                amount_b,
                deposit_outcome(vault, custody, market, position_liquidity, amount_a, amount_b)->Ok_0,
            ),
            market,
            position_liquidity,
            deposit_outcome(vault, custody, market, position_liquidity, amount_a, amount_b)->Ok_0,
            token_min_a_amount,
            token_min_b_amount,
        ) is Ok,
    ensures
        ({
            let minted = deposit_outcome(
                vault,
                custody,
                market,
                position_liquidity,
                amount_a,
                amount_b,
            )->Ok_0;
            let paid = withdraw_outcome(
                vault,
                custody_after_deposit(custody, amount_a, amount_b, minted),
                market,
                position_liquidity,
                minted,
                token_min_a_amount,
                token_min_b_amount,
            )->Ok_0;
            let before = total_value(
                custody.token_a_amount,
                custody.token_b_amount,
                vault.position_snapshot(position_liquidity),
                market,
            )->Ok_0;
            &&& price_weighted_value(
                paid.token_a_amount,
                paid.token_b_amount,
                vault.token_a_price,
                vault.token_b_price,
            ) <= price_weighted_value(amount_a, amount_b, vault.token_a_price, vault.token_b_price)
            &&& amount_b * before.0 <= amount_a * before.1 ==> paid.token_a_amount <= amount_a
            &&& amount_a * before.1 <= amount_b * before.0 ==> paid.token_b_amount <= amount_b
        }),
{
    let position = vault.position_snapshot(position_liquidity);
    let before = total_value(custody.token_a_amount, custody.token_b_amount, position, market)->Ok_0;
    let minted = deposit_outcome(vault, custody, market, position_liquidity, amount_a, amount_b)->Ok_0;
    let grown = custody_after_deposit(custody, amount_a, amount_b, minted);
    let after = total_value(grown.token_a_amount, grown.token_b_amount, position, market)->Ok_0;
    // The position holds what it held, so the totals grow by the deposit.
    assert(after.0 == before.0 + amount_a);
    assert(after.1 == before.1 + amount_b);
    lemma_deposit_then_withdraw_returns_no_more(
        amount_a,
        amount_b,
        before.0,
        before.1,
        custody.token_a_amount,
        custody.token_b_amount,
        vault.token_a_price,
        vault.token_b_price,
        custody.share_supply,
        vault.max_decimal(),
        token_min_a_amount,
        token_min_b_amount,
    );
}

/// A withdrawal whose minimum for token A is above the proportional
/// entitlement never succeeds: there is no plan, and nothing is moved.
pub proof fn lemma_withdraw_below_minimum_moves_nothing(
    vault: Vault,
    custody: CustodySnapshot,
    market: MarketSnapshot,
    position_liquidity: Option<u128>,
    share_amount: u64,
    token_min_a_amount: u64,
    token_min_b_amount: u64,
)
    requires
        total_value(
            custody.token_a_amount,
            custody.token_b_amount,
            vault.position_snapshot(position_liquidity),
            market,
        ) matches Ok(totals) && proportional_amount(totals.0, share_amount, custody.share_supply)
            matches Ok(entitlement_a) && token_min_a_amount > entitlement_a,
    ensures
        withdraw_outcome(
            vault,
            custody,
            market,
            position_liquidity,
            share_amount,
            token_min_a_amount,
            token_min_b_amount,
        ) is Err,
{
    let totals = total_value(
        custody.token_a_amount,
        custody.token_b_amount,
        vault.position_snapshot(position_liquidity),
        market,
    )->Ok_0;
    lemma_minimum_above_entitlement_fails(
        share_amount,
        custody.share_supply,
        totals.0,
        totals.1,
        custody.token_a_amount,
        custody.token_b_amount,
        token_min_a_amount,
        token_min_b_amount,
    );
}

} // verus!
