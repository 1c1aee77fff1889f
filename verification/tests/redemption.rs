use vault::errors::VaultError;
use vault::util::redemption::{calculate_redemption, limit_to_idle, Redemption};

fn paid(token_a_amount: u64, token_b_amount: u64, burn_amount: u64) -> Result<Redemption, VaultError> {
    Ok(Redemption { token_a_amount, token_b_amount, burn_amount })
}

#[test]
fn covered_entitlements_are_paid_in_full() {
    assert_eq!(limit_to_idle(600, 300, 600, 300), Ok((600, 300)));
    assert_eq!(limit_to_idle(600, 300, 601, 9_000), Ok((600, 300)));
    assert_eq!(limit_to_idle(0, 0, 0, 0), Ok((0, 0)));
}

#[test]
fn short_token_a_binds_and_scales_token_b() {
    // 600 / 400 against 300 / 3000: token A binds, B = 300 * 400 / 600
    assert_eq!(limit_to_idle(600, 300, 400, 3_000), Ok((400, 200)));
}

#[test]
fn short_token_b_binds_and_scales_token_a() {
    // 300 / 100 against 600 / 4000: token B binds, A = 600 * 100 / 300
    assert_eq!(limit_to_idle(600, 300, 4_000, 100), Ok((200, 100)));
}

#[test]
fn both_tokens_short_pays_the_binding_one_in_full() {
    // 600 / 400 = 1.5 against 300 / 100 = 3: token B binds
    assert_eq!(limit_to_idle(600, 300, 400, 100), Ok((200, 100)));
    // 600 / 100 = 6 against 300 / 200 = 1.5: token A binds
    assert_eq!(limit_to_idle(600, 300, 100, 200), Ok((100, 50)));
}

#[test]
fn equal_shortfall_binds_token_b() {
    // 600 / 200 = 300 / 100
    assert_eq!(limit_to_idle(600, 300, 200, 100), Ok((200, 100)));
}

#[test]
fn shortfall_is_compared_exactly_near_a_tie() {
    // the two ratios differ by less than one part in 10^19
    let large = u64::MAX;
    assert_eq!(
        limit_to_idle(large, large, large - 1, large - 1),
        Ok((large - 1, large - 1))
    );
    // A: large / (large - 2), B: large / (large - 1): token A binds
    assert_eq!(
        limit_to_idle(large, large, large - 2, large - 1),
        Ok((large - 2, large - 2))
    );
    // and the other way round token B binds
    assert_eq!(
        limit_to_idle(large, large, large - 1, large - 2),
        Ok((large - 2, large - 2))
    );
}

#[test]
fn nothing_idle_pays_nothing() {
    assert_eq!(limit_to_idle(600, 300, 0, 0), Ok((0, 0)));
    assert_eq!(limit_to_idle(600, 300, 0, 50), Ok((0, 0)));
    assert_eq!(limit_to_idle(600, 300, 50, 0), Ok((0, 0)));
}

#[test]
fn binding_token_without_entitlement_fails() {
    // token A is short, and token B, on which the tie falls, is owed nothing
    assert_eq!(
        limit_to_idle(600, 0, 100, 0),
        Err(VaultError::ArithmeticOverflow)
    );
}

#[test]
fn redemption_pays_the_proportional_share() {
    assert_eq!(
        calculate_redemption(100, 1_000, 10_000, 20_000, 10_000, 20_000, 0, 0),
        paid(1_000, 2_000, 100)
    );
    assert_eq!(
        calculate_redemption(1_000, 1_000, 6_000, 3_000, 6_000, 3_000, 0, 0),
        paid(6_000, 3_000, 1_000)
    );
}

#[test]
fn redemption_rounds_entitlements_down() {
    // 6001 * 7 / 1000 = 42.007, 3001 * 7 / 1000 = 21.007
    assert_eq!(
        calculate_redemption(7, 1_000, 6_001, 3_001, 6_001, 3_001, 0, 0),
        paid(42, 21, 7)
    );
}

#[test]
fn redemption_clamps_to_idle_token_a() {
    // shares worth 600 of token A and 300 of token B; only 400 of A is idle
    assert_eq!(
        calculate_redemption(100, 1_000, 6_000, 3_000, 400, 3_000, 0, 0),
        paid(400, 200, 66)
    );
}

#[test]
fn redemption_burn_follows_what_was_paid() {
    // 100 shares requested, two thirds of the entitlement paid: 66 burned
    let clamped = calculate_redemption(100, 1_000, 6_000, 3_000, 400, 3_000, 0, 0).unwrap();
    assert_eq!(clamped.burn_amount, 100 * 400 / 600);
    assert!(clamped.burn_amount < 100);
    let full = calculate_redemption(100, 1_000, 6_000, 3_000, 600, 300, 0, 0).unwrap();
    assert_eq!(full.burn_amount, 100);
}

#[test]
fn redemption_with_both_tokens_short() {
    assert_eq!(
        calculate_redemption(100, 1_000, 6_000, 3_000, 400, 100, 0, 0),
        paid(200, 100, 33)
    );
    assert_eq!(
        calculate_redemption(100, 1_000, 6_000, 3_000, 200, 100, 0, 0),
        paid(200, 100, 33)
    );
    assert_eq!(
        calculate_redemption(333, 1_000, 1_000_003, 2_000_001, 200_000, 500_000, 0, 0),
        paid(200_000, 400_000, 200)
    );
    assert_eq!(
        calculate_redemption(7, 1_000, 6_001, 3_001, 41, 3_000, 0, 0),
        paid(41, 20, 6)
    );
}

#[test]
fn redemption_of_more_shares_than_exist_is_clamped_like_any_other() {
    assert_eq!(
        calculate_redemption(2_000, 1_000, 6_000, 3_000, 6_000, 3_000, 0, 0),
        paid(6_000, 3_000, 1_000)
    );
}

#[test]
fn redemption_with_nothing_idle_pays_and_burns_nothing() {
    assert_eq!(
        calculate_redemption(100, 1_000, 6_000, 3_000, 0, 0, 0, 0),
        paid(0, 0, 0)
    );
}

#[test]
fn minimum_above_entitlement_is_slippage() {
    assert_eq!(
        calculate_redemption(100, 1_000, 6_000, 3_000, 6_000, 3_000, 601, 0),
        Err(VaultError::SlippageExceeded)
    );
    assert_eq!(
        calculate_redemption(100, 1_000, 6_000, 3_000, 6_000, 3_000, 0, 301),
        Err(VaultError::SlippageExceeded)
    );
    assert_eq!(
        calculate_redemption(100, 1_000, 6_000, 3_000, 6_000, 3_000, 600, 300),
        paid(600, 300, 100)
    );
}

#[test]
fn minimum_is_held_against_the_clamped_payout() {
    assert_eq!(
        calculate_redemption(100, 1_000, 6_000, 3_000, 400, 3_000, 401, 0),
        Err(VaultError::SlippageExceeded)
    );
    // token B's entitlement is 300, but only 200 is paid
    assert_eq!(
        calculate_redemption(100, 1_000, 6_000, 3_000, 400, 3_000, 400, 201),
        Err(VaultError::SlippageExceeded)
    );
    assert_eq!(
        calculate_redemption(100, 1_000, 6_000, 3_000, 400, 3_000, 400, 200),
        paid(400, 200, 66)
    );
}

#[test]
fn redemption_without_share_supply_is_an_overflow() {
    assert_eq!(
        calculate_redemption(100, 0, 6_000, 3_000, 6_000, 3_000, 0, 0),
        Err(VaultError::ArithmeticOverflow)
    );
}

#[test]
fn redemption_whose_entitlement_leaves_64_bits_is_an_overflow() {
    assert_eq!(
        calculate_redemption(2_000, 1_000, u64::MAX, 3_000, 6_000, 3_000, 0, 0),
        Err(VaultError::ArithmeticOverflow)
    );
    assert_eq!(
        calculate_redemption(2_000, 1_000, 3_000, u64::MAX, 6_000, 3_000, 0, 0),
        Err(VaultError::ArithmeticOverflow)
    );
}

#[test]
fn redemption_without_token_a_entitlement_is_an_overflow() {
    // the burn is measured in token A, of which the fund has none
    assert_eq!(
        calculate_redemption(100, 1_000, 0, 3_000, 0, 3_000, 0, 0),
        Err(VaultError::ArithmeticOverflow)
    );
    assert_eq!(
        calculate_redemption(0, 1_000, 6_000, 3_000, 6_000, 3_000, 0, 0),
        Err(VaultError::ArithmeticOverflow)
    );
}

#[test]
fn slippage_is_found_before_the_burn_is_computed() {
    assert_eq!(
        calculate_redemption(100, 1_000, 0, 3_000, 0, 3_000, 0, 301),
        Err(VaultError::SlippageExceeded)
    );
}

#[test]
fn clamping_failure_is_found_before_slippage() {
    // token A short, token B owed nothing: the scaling divides by zero
    assert_eq!(
        calculate_redemption(100, 1_000, 6_000, 0, 400, 0, 1_000, 1_000),
        Err(VaultError::ArithmeticOverflow)
    );
}
