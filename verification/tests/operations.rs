use vault::errors::VaultError;
use vault::instructions::custody::{plan_deposit, plan_withdrawal, CustodyInstruction, ReserveToken};
use vault::instructions::deposit::deposit;
use vault::instructions::initialize_vault::{initialize_vault, VaultAccounts};
use vault::instructions::open_position::{open_position, OpenPositionRequest};
use vault::instructions::remove_liquidity::{remove_liquidity, DecreaseLiquidityRequest};
use vault::instructions::update_prices::update_prices;
use vault::instructions::update_ticks::update_ticks;
use vault::instructions::withdraw::withdraw;
use vault::state::snapshot::{CustodySnapshot, MarketSnapshot, PositionSnapshot};
use vault::state::vault::Vault;
use vault::util::redemption::Redemption;

fn accounts() -> VaultAccounts {
    VaultAccounts {
        admin: [1; 32],
        whirlpool: [2; 32],
        token_a_mint: [3; 32],
        token_b_mint: [4; 32],
        token_a_vault: [5; 32],
        token_b_vault: [6; 32],
        share_mint: [7; 32],
        token_a_decimal: 6,
        token_b_decimal: 9,
        bump: 254,
    }
}

fn fund(token_a_price: u64, token_b_price: u64, token_a_decimal: u8, token_b_decimal: u8) -> Vault {
    let mut described = accounts();
    described.token_a_decimal = token_a_decimal;
    described.token_b_decimal = token_b_decimal;
    initialize_vault(&described, token_a_price, token_b_price, -1_000, 1_000)
}

fn quiet_market() -> MarketSnapshot {
    MarketSnapshot { sqrt_price: 18446744073709551616, tick_current_index: 0 }
}

#[test]
fn initialize_records_accounts_prices_and_range() {
    let vault = initialize_vault(&accounts(), 11, 22, -300, 400);
    assert_eq!(vault.admin, [1; 32]);
    assert_eq!(vault.whirlpool, [2; 32]);
    assert_eq!(vault.token_a_mint, [3; 32]);
    assert_eq!(vault.token_b_mint, [4; 32]);
    assert_eq!(vault.token_a_vault, [5; 32]);
    assert_eq!(vault.token_b_vault, [6; 32]);
    assert_eq!(vault.share_mint, [7; 32]);
    assert_eq!(vault.token_a_price, 11);
    assert_eq!(vault.token_b_price, 22);
    assert_eq!(vault.token_a_decimal, 6);
    assert_eq!(vault.token_b_decimal, 9);
    assert_eq!(vault.lower_tick, -300);
    assert_eq!(vault.upper_tick, 400);
    assert_eq!(vault.bump, 254);
}

#[test]
fn stored_record_length() {
    assert_eq!(Vault::LEN, 251);
}

#[test]
fn update_prices_changes_only_the_prices() {
    let mut vault = initialize_vault(&accounts(), 11, 22, -300, 400);
    update_prices(&mut vault, 5, 0);
    assert_eq!(vault.token_a_price, 5);
    assert_eq!(vault.token_b_price, 0);
    assert_eq!(vault.lower_tick, -300);
    assert_eq!(vault.upper_tick, 400);
    assert_eq!(vault.admin, [1; 32]);
    assert_eq!(vault.share_mint, [7; 32]);
    assert_eq!(vault.token_b_decimal, 9);
    assert_eq!(vault.bump, 254);
}

#[test]
fn update_ticks_changes_only_the_range() {
    let mut vault = initialize_vault(&accounts(), 11, 22, -300, 400);
    update_ticks(&mut vault, 64, 128);
    assert_eq!(vault.lower_tick, 64);
    assert_eq!(vault.upper_tick, 128);
    assert_eq!(vault.token_a_price, 11);
    assert_eq!(vault.token_b_price, 22);
    assert_eq!(vault.whirlpool, [2; 32]);
    assert_eq!(vault.token_a_decimal, 6);
}

#[test]
fn max_decimal_is_the_higher_precision() {
    assert_eq!(fund(1, 1, 6, 9).max_decimal(), 9);
    assert_eq!(fund(1, 1, 9, 6).max_decimal(), 9);
    assert_eq!(fund(1, 1, 0, 0).max_decimal(), 0);
}

#[test]
fn position_snapshot_takes_the_range_from_the_record() {
    let vault = fund(1, 1, 0, 0);
    assert_eq!(vault.position_snapshot(None), PositionSnapshot::NoPosition);
    assert_eq!(
        vault.position_snapshot(Some(77)),
        PositionSnapshot::Position { liquidity: 77, tick_lower_index: -1_000, tick_upper_index: 1_000 }
    );
}

#[test]
fn position_is_opened_over_the_recorded_range() {
    let mut vault = initialize_vault(&accounts(), 11, 22, -300, 400);
    assert_eq!(
        open_position(&vault),
        OpenPositionRequest { tick_lower_index: -300, tick_upper_index: 400, position_bump: 0 }
    );
    update_ticks(&mut vault, 64, 128);
    assert_eq!(
        open_position(&vault),
        OpenPositionRequest { tick_lower_index: 64, tick_upper_index: 128, position_bump: 0 }
    );
}

#[test]
fn liquidity_is_removed_all_at_once_without_minimums() {
    assert_eq!(
        remove_liquidity(5_000_000_000_000),
        DecreaseLiquidityRequest { liquidity_amount: 5_000_000_000_000, token_min_a: 0, token_min_b: 0 }
    );
    assert_eq!(
        remove_liquidity(0),
        DecreaseLiquidityRequest { liquidity_amount: 0, token_min_a: 0, token_min_b: 0 }
    );
    assert_eq!(
        remove_liquidity(u128::MAX),
        DecreaseLiquidityRequest { liquidity_amount: u128::MAX, token_min_a: 0, token_min_b: 0 }
    );
}

#[test]
fn deposit_plan_lists_transfers_then_mint() {
    assert_eq!(
        plan_deposit(10, 20, 30),
        vec![
            CustodyInstruction::TransferIn { token: ReserveToken::A, amount: 10 },
            CustodyInstruction::TransferIn { token: ReserveToken::B, amount: 20 },
            CustodyInstruction::MintShares { amount: 30 },
        ]
    );
}

#[test]
fn deposit_plan_leaves_out_empty_transfers() {
    assert_eq!(
        plan_deposit(0, 20, 30),
        vec![
            CustodyInstruction::TransferIn { token: ReserveToken::B, amount: 20 },
            CustodyInstruction::MintShares { amount: 30 },
        ]
    );
    assert_eq!(
        plan_deposit(10, 0, 0),
        vec![
            CustodyInstruction::TransferIn { token: ReserveToken::A, amount: 10 },
            CustodyInstruction::MintShares { amount: 0 },
        ]
    );
    assert_eq!(plan_deposit(0, 0, 0), vec![CustodyInstruction::MintShares { amount: 0 }]);
}

#[test]
fn withdrawal_plan_lists_payouts_then_burn() {
    assert_eq!(
        plan_withdrawal(10, 20, 30),
        vec![
            CustodyInstruction::TransferOut { token: ReserveToken::A, amount: 10 },
            CustodyInstruction::TransferOut { token: ReserveToken::B, amount: 20 },
            CustodyInstruction::BurnShares { amount: 30 },
        ]
    );
    assert_eq!(
        plan_withdrawal(0, 20, 30),
        vec![
            CustodyInstruction::TransferOut { token: ReserveToken::B, amount: 20 },
            CustodyInstruction::BurnShares { amount: 30 },
        ]
    );
    assert_eq!(plan_withdrawal(0, 0, 0), vec![CustodyInstruction::BurnShares { amount: 0 }]);
}

#[test]
fn first_deposit_into_a_fund_without_position() {
    let vault = fund(1, 1, 0, 0);
    let custody = CustodySnapshot { token_a_amount: 1_000_000, token_b_amount: 0, share_supply: 0 };
    let plan = deposit(&vault, &custody, &quiet_market(), None, 100_000, 0).unwrap();
    assert_eq!(plan.share_amount, 100_000);
    assert_eq!(
        plan.instructions,
        vec![
            CustodyInstruction::TransferIn { token: ReserveToken::A, amount: 100_000 },
            CustodyInstruction::MintShares { amount: 100_000 },
        ]
    );
}

#[test]
fn second_deposit_into_a_fund_without_position() {
    let vault = fund(1, 1, 0, 0);
    let custody =
        CustodySnapshot { token_a_amount: 1_100_000, token_b_amount: 0, share_supply: 100_000 };
    let plan = deposit(&vault, &custody, &quiet_market(), None, 50_000, 0).unwrap();
    assert_eq!(plan.share_amount, 4_545);
    assert_eq!(
        plan.instructions,
        vec![
            CustodyInstruction::TransferIn { token: ReserveToken::A, amount: 50_000 },
            CustodyInstruction::MintShares { amount: 4_545 },
        ]
    );
}

#[test]
fn deposit_values_the_position_at_the_current_price() {
    // the position holds (181,733,076,352, 306,730,081,514) at this price
    let vault = fund(3, 2, 6, 9);
    let market = MarketSnapshot { sqrt_price: 18678763876670345414, tick_current_index: 250 };
    let custody = CustodySnapshot {
        token_a_amount: 1_000_000_000,
        token_b_amount: 2_000_000_000,
        share_supply: 50_000_000_000_000,
    };
    let plan = deposit(
        &vault,
        &custody,
        &market,
        Some(5_000_000_000_000),
        40_000_000_000,
        10_000_000_000,
    )
    .unwrap();
    assert_eq!(plan.share_amount, 6_005);
    assert_eq!(
        plan.instructions,
        vec![
            CustodyInstruction::TransferIn { token: ReserveToken::A, amount: 40_000_000_000 },
            CustodyInstruction::TransferIn { token: ReserveToken::B, amount: 10_000_000_000 },
            CustodyInstruction::MintShares { amount: 6_005 },
        ]
    );
    // without the position the same deposit would be a far larger part of the fund
    let alone = deposit(&vault, &custody, &market, None, 40_000_000_000, 10_000_000_000).unwrap();
    assert!(alone.share_amount > plan.share_amount);
}

#[test]
fn deposit_uses_the_higher_decimal_precision() {
    let custody = CustodySnapshot { token_a_amount: 0, token_b_amount: 0, share_supply: 0 };
    // value 140,000,000,000 scaled by 10^9, not by 10^6
    let plan = deposit(
        &fund(3, 2, 6, 9),
        &custody,
        &quiet_market(),
        None,
        40_000_000_000,
        10_000_000_000,
    )
    .unwrap();
    assert_eq!(plan.share_amount, 140);
    let swapped = deposit(
        &fund(3, 2, 9, 6),
        &custody,
        &quiet_market(),
        None,
        40_000_000_000,
        10_000_000_000,
    )
    .unwrap();
    assert_eq!(swapped.share_amount, 140);
}

#[test]
fn deposit_fails_as_a_whole_when_valuation_fails() {
    let vault = fund(1, 1, 0, 0);
    let custody = CustodySnapshot { token_a_amount: 10, token_b_amount: 10, share_supply: 10 };
    let result = deposit(&vault, &custody, &quiet_market(), Some(u128::MAX), 5, 5);
    assert_eq!(result.unwrap_err(), VaultError::CalculationFailure);
}

#[test]
fn deposit_fails_as_a_whole_when_share_arithmetic_fails() {
    let vault = fund(1, 1, 0, 0);
    let custody = CustodySnapshot { token_a_amount: 0, token_b_amount: 0, share_supply: 10 };
    let result = deposit(&vault, &custody, &quiet_market(), None, 5, 5);
    assert_eq!(result.unwrap_err(), VaultError::ArithmeticOverflow);
}

#[test]
fn withdraw_from_a_fund_without_position() {
    let vault = fund(1, 1, 0, 0);
    let custody =
        CustodySnapshot { token_a_amount: 10_000, token_b_amount: 20_000, share_supply: 1_000 };
    let plan = withdraw(&vault, &custody, &quiet_market(), None, 100, 1_000, 2_000).unwrap();
    assert_eq!(
        plan.redemption,
        Redemption { token_a_amount: 1_000, token_b_amount: 2_000, burn_amount: 100 }
    );
    assert_eq!(
        plan.instructions,
        vec![
            CustodyInstruction::TransferOut { token: ReserveToken::A, amount: 1_000 },
            CustodyInstruction::TransferOut { token: ReserveToken::B, amount: 2_000 },
            CustodyInstruction::BurnShares { amount: 100 },
        ]
    );
}

#[test]
fn withdraw_is_limited_by_what_the_position_locks() {
    let vault = fund(3, 2, 6, 9);
    let market = MarketSnapshot { sqrt_price: 18678763876670345414, tick_current_index: 250 };
    let custody = CustodySnapshot {
        token_a_amount: 1_000_000_000,
        token_b_amount: 2_000_000_000,
        share_supply: 50_000_000,
    };
    // a tenth of the fund is far more than is idle: token A binds
    let plan =
        withdraw(&vault, &custody, &market, Some(5_000_000_000_000), 5_000_000, 0, 0).unwrap();
    assert_eq!(
        plan.redemption,
        Redemption {
            token_a_amount: 1_000_000_000,
            token_b_amount: 1_689_513_949,
            burn_amount: 273_623,
        }
    );
    assert_eq!(
        plan.instructions,
        vec![
            CustodyInstruction::TransferOut { token: ReserveToken::A, amount: 1_000_000_000 },
            CustodyInstruction::TransferOut { token: ReserveToken::B, amount: 1_689_513_949 },
            CustodyInstruction::BurnShares { amount: 273_623 },
        ]
    );
    // a thousandth of the fund is covered
    let small = withdraw(&vault, &custody, &market, Some(5_000_000_000_000), 50_000, 0, 0).unwrap();
    assert_eq!(
        small.redemption,
        Redemption { token_a_amount: 182_733_076, token_b_amount: 308_730_081, burn_amount: 50_000 }
    );
}

#[test]
fn withdraw_below_the_minimum_moves_nothing() {
    let vault = fund(1, 1, 0, 0);
    let custody =
        CustodySnapshot { token_a_amount: 10_000, token_b_amount: 20_000, share_supply: 1_000 };
    // entitled to 1,000 of token A
    let result = withdraw(&vault, &custody, &quiet_market(), None, 100, 1_001, 0);
    assert_eq!(result.unwrap_err(), VaultError::SlippageExceeded);
    let result = withdraw(&vault, &custody, &quiet_market(), None, 100, 0, 2_001);
    assert_eq!(result.unwrap_err(), VaultError::SlippageExceeded);
}

#[test]
fn withdraw_fails_as_a_whole_when_valuation_fails() {
    let vault = fund(1, 1, 0, 0);
    let custody =
        CustodySnapshot { token_a_amount: u64::MAX, token_b_amount: 20_000, share_supply: 1_000 };
    let result = withdraw(&vault, &custody, &quiet_market(), Some(1_000_000_000), 100, 0, 0);
    assert_eq!(result.unwrap_err(), VaultError::CalculationFailure);
}

#[test]
fn withdraw_from_a_fund_without_shares_is_an_overflow() {
    let vault = fund(1, 1, 0, 0);
    let custody = CustodySnapshot { token_a_amount: 10, token_b_amount: 10, share_supply: 0 };
    let result = withdraw(&vault, &custody, &quiet_market(), None, 1, 0, 0);
    assert_eq!(result.unwrap_err(), VaultError::ArithmeticOverflow);
}

#[test]
fn deposit_then_withdraw_in_the_funds_proportion_returns_the_deposit() {
    let vault = fund(2, 5, 0, 0);
    let before =
        CustodySnapshot { token_a_amount: 1_000_000, token_b_amount: 500_000, share_supply: 300_000 };
    let minted = deposit(&vault, &before, &quiet_market(), None, 30_000, 15_000).unwrap().share_amount;
    assert_eq!(minted, 9_000);
    let after = CustodySnapshot {
        token_a_amount: 1_030_000,
        token_b_amount: 515_000,
        share_supply: 309_000,
    };
    let plan = withdraw(&vault, &after, &quiet_market(), None, minted, 0, 0).unwrap();
    assert_eq!(
        plan.redemption,
        Redemption { token_a_amount: 30_000, token_b_amount: 15_000, burn_amount: 9_000 }
    );
}

#[test]
fn deposit_then_withdraw_returns_no_more_value() {
    let vault = fund(2, 5, 0, 0);
    let before =
        CustodySnapshot { token_a_amount: 1_000_000, token_b_amount: 500_000, share_supply: 300_000 };
    // token A only: the shares come back as a mix of both tokens
    let minted = deposit(&vault, &before, &quiet_market(), None, 90_000, 0).unwrap().share_amount;
    assert_eq!(minted, 12_000);
    let after = CustodySnapshot {
        token_a_amount: 1_090_000,
        token_b_amount: 500_000,
        share_supply: 312_000,
    };
    let paid = withdraw(&vault, &after, &quiet_market(), None, minted, 0, 0).unwrap().redemption;
    assert_eq!(
        paid,
        Redemption { token_a_amount: 41_923, token_b_amount: 19_230, burn_amount: 12_000 }
    );
    // worth 179,996 against 180,000 put in
    assert!(paid.token_a_amount * 2 + paid.token_b_amount * 5 <= 90_000 * 2);
    // and no more of the token that was deposited
    assert!(paid.token_a_amount <= 90_000);
}
