use vstd::prelude::*;
use vstd::arithmetic::div_mod::lemma_multiply_divide_le;
use vstd::arithmetic::power::{pow, lemma_pow_positive};
use crate::errors::VaultError;
use crate::util::math::{lemma_floor_bounds, proportional_amount};
use crate::util::redemption::{lemma_redemption_bounds, redemption, Redemption};
use crate::util::utils::{
    lemma_minted_shares_are_proportional,
    price_weighted_value,
    shares_to_mint,
};

verus! {

/// Shares minted by a deposit never claim more of the fund's value than the
/// deposit brought: with `minted` shares added to a supply of
/// `total_shares`, `minted * total_value <= deposit_value * total_shares`.
/// This holds with shares outstanding, and for a fund that is empty.
pub proof fn lemma_minted_claim_at_most_deposit(
    amount_a: u64,
    amount_b: u64,
    total_token_a_amount: u64,
    total_token_b_amount: u64,
    price_a: u64,
    price_b: u64,
    total_shares: u64,
    decimal: u8,
)
    requires
        total_shares != 0 || (total_token_a_amount == 0 && total_token_b_amount == 0),
        shares_to_mint(
            amount_a,
            amount_b,
            total_token_a_amount,
            total_token_b_amount,
            price_a,
            price_b,
            total_shares,
            decimal,
        ) is Ok,
    ensures
        shares_to_mint(
            amount_a,
            amount_b,
            total_token_a_amount,
            total_token_b_amount,
            price_a,
            price_b,
            total_shares,
            decimal,
        )->Ok_0 * price_weighted_value(
            total_token_a_amount,
            total_token_b_amount,
            price_a,
            price_b,
        ) <= price_weighted_value(amount_a, amount_b, price_a, price_b) * total_shares,
        0 <= price_weighted_value(total_token_a_amount, total_token_b_amount, price_a, price_b),
        0 <= price_weighted_value(amount_a, amount_b, price_a, price_b),
        total_shares != 0 ==> 0 < price_weighted_value(
            total_token_a_amount,
            total_token_b_amount,
            price_a,
            price_b,
        ),
{
    let minted = shares_to_mint(
        amount_a,
        amount_b,
        total_token_a_amount,
        total_token_b_amount,
        price_a,
        price_b,
        total_shares,
        decimal,
    )->Ok_0 as int;
    let value = price_weighted_value(amount_a, amount_b, price_a, price_b);
    let total = price_weighted_value(total_token_a_amount, total_token_b_amount, price_a, price_b);
    let unit = pow(10, decimal as nat);
    assert(0 <= total) by (nonlinear_arith)
        requires
            total == total_token_a_amount * price_a + total_token_b_amount * price_b,
    ;
    lemma_minted_shares_are_proportional(
        amount_a,
        amount_b,
        total_token_a_amount,
        total_token_b_amount,
        price_a,
        price_b,
        total_shares,
        decimal,
    );
    if total_shares == 0 {
        assert(total == 0) by (nonlinear_arith)
            requires
                total == total_token_a_amount * price_a + total_token_b_amount * price_b,
                total_token_a_amount == 0,
                total_token_b_amount == 0,
        ;
        assert(minted * total == 0 && value * total_shares == 0) by (nonlinear_arith)
            requires
                total == 0,
                total_shares == 0,
        ;
    } else {
        lemma_pow_positive(10, decimal as nat);
        assert(minted * total <= value * total_shares) by (nonlinear_arith)
            requires
                0 <= minted,
                0 < total,
                1 <= unit,
                0 <= value * total_shares,
                minted * (total * unit) <= value * total_shares,
        ;
    }
}

/// Depositing and at once withdrawing every share the deposit minted
/// manufactures no value.
///
/// The fund's totals and idle balances grow by exactly the deposit, and
/// nothing else changes between the two operations. Then, at the fund's
/// prices, what is paid out is worth no more than what was put in. Token by
/// token, the payout does not exceed the deposit for a token that the
/// deposit held in at least the fund's proportion; a deposit in exactly the
/// fund's proportion gets back no more of either token.
///
/// The fund must have shares outstanding, or be empty: the first shares of
/// a fund that already holds value claim all of it.
pub proof fn lemma_deposit_then_withdraw_returns_no_more(
    amount_a: u64,
    amount_b: u64,
    total_token_a_amount: u64,
    total_token_b_amount: u64,
    idle_a: u64,
    idle_b: u64,
    price_a: u64,
    price_b: u64,
    total_shares: u64,
    decimal: u8,
    token_min_a_amount: u64,
    token_min_b_amount: u64,
)
    requires
        total_shares != 0 || (total_token_a_amount == 0 && total_token_b_amount == 0),
        shares_to_mint(
            amount_a,
            amount_b,
            total_token_a_amount,
            total_token_b_amount,
            price_a,
            price_b,
            total_shares,
            decimal,
        ) is Ok,
        total_token_a_amount + amount_a <= u64::MAX,
        total_token_b_amount + amount_b <= u64::MAX,
        idle_a + amount_a <= u64::MAX,
        idle_b + amount_b <= u64::MAX,
        total_shares + shares_to_mint(
            amount_a,
            amount_b,
            total_token_a_amount,
            total_token_b_amount,
            price_a,
            price_b,
            total_shares,
            decimal,
        )->Ok_0 <= u64::MAX,
        withdrawal_after_deposit(
            amount_a,
            amount_b,
            total_token_a_amount,
            total_token_b_amount,
            idle_a,
            idle_b,
            price_a,
            price_b,
            total_shares,
            decimal,
            token_min_a_amount,
            token_min_b_amount,
        ) is Ok,
    ensures
        ({
            let paid = withdrawal_after_deposit(
                amount_a,
                amount_b,
                total_token_a_amount,
                total_token_b_amount,
                idle_a,
                idle_b,
                price_a,
                price_b,
                total_shares,
                decimal,
                token_min_a_amount,
                token_min_b_amount,
            )->Ok_0;
            &&& price_weighted_value(paid.token_a_amount, paid.token_b_amount, price_a, price_b)
                <= price_weighted_value(amount_a, amount_b, price_a, price_b)
            &&& amount_b * total_token_a_amount <= amount_a * total_token_b_amount
                ==> paid.token_a_amount <= amount_a
            &&& amount_a * total_token_b_amount <= amount_b * total_token_a_amount
                ==> paid.token_b_amount <= amount_b
        }),
{
    let minted = shares_to_mint(
        amount_a,
        amount_b,
        total_token_a_amount,
        total_token_b_amount,
        price_a,
        price_b,
        total_shares,
        decimal,
    )->Ok_0;
    let supply = (total_shares + minted) as u64;
    let total_a = (total_token_a_amount + amount_a) as u64;
    let total_b = (total_token_b_amount + amount_b) as u64;
    let paid = redemption(
        minted,
        supply,
        total_a,
        total_b,
        (idle_a + amount_a) as u64,
        (idle_b + amount_b) as u64,
        token_min_a_amount,
        token_min_b_amount,
    )->Ok_0;
    lemma_redemption_bounds(
        minted,
        supply,
        total_a,
        total_b,
        (idle_a + amount_a) as u64,
        (idle_b + amount_b) as u64,
        token_min_a_amount,
        token_min_b_amount,
    );
    lemma_minted_claim_at_most_deposit(
        amount_a,
        amount_b,
        total_token_a_amount,
        total_token_b_amount,
        price_a,
        price_b,
        total_shares,
        decimal,
    );
    let entitlement_a = proportional_amount(total_a, minted, supply)->Ok_0 as int;
    let entitlement_b = proportional_amount(total_b, minted, supply)->Ok_0 as int;
    let value = price_weighted_value(amount_a, amount_b, price_a, price_b);
    let total = price_weighted_value(total_token_a_amount, total_token_b_amount, price_a, price_b);
    let m = minted as int;
    let s0 = total_shares as int;
    let s = supply as int;
    let ta = total_token_a_amount as int;
    let tb = total_token_b_amount as int;
    let a = amount_a as int;
    let b = amount_b as int;
    let pa = price_a as int;
    let pb = price_b as int;
    assert(s > 0);
    assert(0 <= (ta + a) * m && 0 <= (tb + b) * m) by (nonlinear_arith)
        requires
            0 <= ta,
            0 <= a,
            0 <= tb,
            0 <= b,
            0 <= m,
    ;
    lemma_floor_bounds((ta + a) * m, s);
    lemma_floor_bounds((tb + b) * m, s);
    assert(entitlement_a == ((ta + a) * m) / s);
    assert(entitlement_b == ((tb + b) * m) / s);

    // The entitlements are worth no more than the deposit.
    let claim_a = (ta + a) * m;
    let claim_b = (tb + b) * m;
    let worth = entitlement_a * pa + entitlement_b * pb;
    assert(worth * s == (entitlement_a * s) * pa + (entitlement_b * s) * pb) by (nonlinear_arith)
        requires
            worth == entitlement_a * pa + entitlement_b * pb,
    ;
    assert((entitlement_a * s) * pa <= claim_a * pa) by (nonlinear_arith)
        requires
            0 <= pa,
            entitlement_a * s <= claim_a,
    ;
    assert((entitlement_b * s) * pb <= claim_b * pb) by (nonlinear_arith)
        requires
            0 <= pb,
            entitlement_b * s <= claim_b,
    ;
    assert(claim_a * pa + claim_b * pb == m * total + m * value) by (nonlinear_arith)
        requires
            claim_a == (ta + a) * m,
            claim_b == (tb + b) * m,
            value == a * pa + b * pb,
            total == ta * pa + tb * pb,
    ;
    assert(m * total + m * value <= value * s) by (nonlinear_arith)
        requires
            s == s0 + m,
            m * total <= value * s0,
    ;
    assert(worth <= value) by (nonlinear_arith)
        requires
            0 < s,
            worth * s <= value * s,
    ;
    assert(paid.token_a_amount * pa + paid.token_b_amount * pb <= entitlement_a * pa
        + entitlement_b * pb) by (nonlinear_arith)
        requires
            0 <= pa,
            0 <= pb,
            0 <= paid.token_a_amount <= entitlement_a,
            0 <= paid.token_b_amount <= entitlement_b,
    ;

    if b * ta <= a * tb {
        lemma_token_not_overpaid(a, b, ta, tb, pa, pb, m, s0);
        lemma_multiply_divide_le((ta + a) * m, s, a);
    }
    if a * tb <= b * ta {
        lemma_token_not_overpaid(b, a, tb, ta, pb, pa, m, s0);
        lemma_multiply_divide_le((tb + b) * m, s, b);
    }
}

/// The withdrawal of every share that a deposit minted, from the fund as
/// the deposit left it: totals, idle balances and share supply each grown
/// by what the deposit added.
pub open spec fn withdrawal_after_deposit(
    amount_a: u64,
    amount_b: u64,
    total_token_a_amount: u64,
    total_token_b_amount: u64,
    idle_a: u64,
    idle_b: u64,
    price_a: u64,
    price_b: u64,
    total_shares: u64,
    decimal: u8,
    token_min_a_amount: u64,
    token_min_b_amount: u64,
) -> Result<Redemption, VaultError> {
    let minted = shares_to_mint(
        amount_a,
        amount_b,
        total_token_a_amount,
        total_token_b_amount,
        price_a,
        price_b,
        total_shares,
        decimal,
    )->Ok_0;
    redemption(
        minted,
        (total_shares + minted) as u64,
        (total_token_a_amount + amount_a) as u64,
        (total_token_b_amount + amount_b) as u64,
        (idle_a + amount_a) as u64,
        (idle_b + amount_b) as u64,
        token_min_a_amount,
        token_min_b_amount,
    )
}

/// For a token that the deposit holds in at least the fund's proportion,
/// the minted shares' claim on the grown total is covered by the deposit:
/// `(total + amount) * minted <= (supply + minted) * amount`.
proof fn lemma_token_not_overpaid(
    amount: int,
    other_amount: int,
    total: int,
    other_total: int,
    price: int,
    other_price: int,
    minted: int,
    supply: int,
)
    requires
        0 <= amount,
        0 <= other_amount,
        0 <= total,
        0 <= other_total,
        0 <= price,
        0 <= other_price,
        0 <= minted,
        0 <= supply,
        other_amount * total <= amount * other_total,
        minted * (total * price + other_total * other_price) <= (amount * price + other_amount
            * other_price) * supply,
        supply != 0 || (total == 0 && other_total == 0),
        supply != 0 ==> total * price + other_total * other_price > 0,
    ensures
        (total + amount) * minted <= (supply + minted) * amount,
{
    let fund_value = total * price + other_total * other_price;
    let deposit_value = amount * price + other_amount * other_price;
    assert((total + amount) * minted == total * minted + amount * minted) by (nonlinear_arith);
    assert((supply + minted) * amount == supply * amount + amount * minted) by (nonlinear_arith);
    if supply == 0 {
        assert(total * minted == 0) by (nonlinear_arith)
            requires
                total == 0,
        ;
        assert(supply * amount == 0) by (nonlinear_arith)
            requires
                supply == 0,
        ;
    } else {
        // Measured against the fund, the deposit brings no more value than
        // it brings of this token.
        assert(deposit_value * total <= amount * fund_value) by (nonlinear_arith)
            requires
                0 <= price,
                0 <= other_price,
                0 <= total,
                other_amount * total <= amount * other_total,
                fund_value == total * price + other_total * other_price,
                deposit_value == amount * price + other_amount * other_price,
        ;
        assert(total * minted <= supply * amount) by (nonlinear_arith)
            requires
                0 < fund_value,
                0 <= total,
                0 <= minted,
                0 <= supply,
                0 <= amount,
                minted * fund_value <= deposit_value * supply,
                deposit_value * total <= amount * fund_value,
        ;
    }
}

} // verus!
