use vstd::prelude::*;
use vstd::arithmetic::div_mod::{lemma_div_multiples_vanish, lemma_multiply_divide_le};
use crate::errors::VaultError;
use crate::util::math::{
    calculate_proportional_amount,
    lemma_part_at_most_whole,
    lemma_u64_product_fits,
    proportional_amount,
    TokenAmount,
};

verus! {

/// What a withdrawal pays out and what it burns.
#[derive(Debug, Clone, Copy, PartialEq, Eq, Structural)]
pub struct Redemption {
    /// Token A paid to the holder.
    pub token_a_amount: u64,
    /// Token B paid to the holder.
    pub token_b_amount: u64,
    /// Shares destroyed, in proportion to what was actually paid.
    pub burn_amount: u64,
}

/// Whether token A is the binding constraint of a shrunk payout: whether
/// its entitlement exceeds its idle balance by the larger ratio. The ratios
/// `entitlement_a / idle_a` and `entitlement_b / idle_b` are compared by
/// cross-multiplication, so the answer is exact; on a tie token B binds.
pub open spec fn token_a_binds(entitlement_a: u64, entitlement_b: u64, idle_a: u64, idle_b: u64) -> bool {
    entitlement_a * idle_b > entitlement_b * idle_a
}

/// The payouts that idle balances allow.
///
/// Where both entitlements are covered they are paid in full. Otherwise
/// the binding token pays out its whole idle balance, and the other
/// entitlement is scaled by the binding token's idle balance over its
/// entitlement, multiplied before it is divided and rounded down.
pub open spec fn limited_payouts(
    entitlement_a: u64,
    entitlement_b: u64,
    idle_a: u64,
    idle_b: u64,
) -> Result<(u64, u64), VaultError> {
    if entitlement_a <= idle_a && entitlement_b <= idle_b {
        Ok((entitlement_a, entitlement_b))
    } else if token_a_binds(entitlement_a, entitlement_b, idle_a, idle_b) {
        match proportional_amount(entitlement_b, idle_a, entitlement_a) {
            Ok(token_b) => Ok((idle_a, token_b)),
            Err(e) => Err(e),
        }
    } else {
        match proportional_amount(entitlement_a, idle_b, entitlement_b) {
            Ok(token_a) => Ok((token_a, idle_b)),
            Err(e) => Err(e),
        }
    }
}

/// Shrinks a pair of entitlements to what the idle balances can pay, in one
/// pass, keeping the ratio between the two payouts.
pub fn limit_to_idle(entitlement_a: u64, entitlement_b: u64, idle_a: u64, idle_b: u64) -> (result:
    Result<(u64, u64), VaultError>)
    ensures
        result == limited_payouts(entitlement_a, entitlement_b, idle_a, idle_b),
{
    if entitlement_a <= idle_a && entitlement_b <= idle_b {
        return Ok((entitlement_a, entitlement_b));
    }
    proof {
        lemma_u64_product_fits(entitlement_a, idle_b);
        lemma_u64_product_fits(entitlement_b, idle_a);
    }
    let excess_a = TokenAmount::new(entitlement_a).multiply(idle_b)?;
    let excess_b = TokenAmount::new(entitlement_b).multiply(idle_a)?;
    if excess_a.exceeds(&excess_b) {
        let token_b = calculate_proportional_amount(entitlement_b, idle_a, entitlement_a)?;
        Ok((idle_a, token_b))
    } else {
        let token_a = calculate_proportional_amount(entitlement_a, idle_b, entitlement_b)?;
        Ok((token_a, idle_b))
    }
}

/// The outcome of burning `share_amount` out of `total_shares`.
///
/// Each token's entitlement is the fund's total of it times the shares
/// burned over the share supply. The entitlements are shrunk to the idle
/// balances, the shrunk payouts are held against the caller's minimums, and
/// the burn is the shares requested times the token A actually paid over
/// the token A entitlement. The first step that fails decides the error.
pub open spec fn redemption(
    share_amount: u64,
    total_shares: u64,
    total_token_a_amount: u64,
    total_token_b_amount: u64,
    idle_a: u64,
    idle_b: u64,
    token_min_a_amount: u64,
    token_min_b_amount: u64,
) -> Result<Redemption, VaultError> {
    match proportional_amount(total_token_a_amount, share_amount, total_shares) {
        Err(e) => Err(e),
        Ok(entitlement_a) => match proportional_amount(
            total_token_b_amount,
            share_amount,
            total_shares,
        ) {
            Err(e) => Err(e),
            Ok(entitlement_b) => match limited_payouts(entitlement_a, entitlement_b, idle_a, idle_b) {
                Err(e) => Err(e),
                Ok(payouts) => if payouts.0 < token_min_a_amount || payouts.1 < token_min_b_amount {
                    Err(VaultError::SlippageExceeded)
                } else {
                    match proportional_amount(share_amount, payouts.0, entitlement_a) {
                        Err(e) => Err(e),
                        Ok(burn_amount) => Ok(
                            Redemption {
                                token_a_amount: payouts.0,
                                token_b_amount: payouts.1,
                                burn_amount,
                            },
                        ),
                    }
                },
            },
        },
    }
}

/// Computes a withdrawal: the proportional entitlements, shrunk to the idle
/// balances, checked against the caller's minimums, and the burn that
/// matches what is paid.
pub fn calculate_redemption(
    share_amount: u64,
    total_shares: u64,
    total_token_a_amount: u64,
    total_token_b_amount: u64,
    idle_a: u64,
    idle_b: u64,
    token_min_a_amount: u64,
    token_min_b_amount: u64,
) -> (result: Result<Redemption, VaultError>)
    ensures
        result == redemption(
            share_amount,
            total_shares,
            total_token_a_amount,
            total_token_b_amount,
            idle_a,
            idle_b,
            token_min_a_amount,
            token_min_b_amount,
        ),
{
    let entitlement_a = calculate_proportional_amount(
        total_token_a_amount,
        share_amount,
        total_shares,
    )?;
    let entitlement_b = calculate_proportional_amount(
        total_token_b_amount,
        share_amount,
        total_shares,
    )?;
    let (token_a_amount, token_b_amount) = limit_to_idle(
        entitlement_a,
        entitlement_b,
        idle_a,
        idle_b,
    )?;
    if token_a_amount < token_min_a_amount || token_b_amount < token_min_b_amount {
        return Err(VaultError::SlippageExceeded);
    }
    let burn_amount = calculate_proportional_amount(share_amount, token_a_amount, entitlement_a)?;
    Ok(Redemption { token_a_amount, token_b_amount, burn_amount })
}

/// Where a payout has to be shrunk, the binding token's entitlement
/// exceeds its idle balance, and its entitlement is not zero.
pub proof fn lemma_binding_token_is_short(
    entitlement_a: u64,
    entitlement_b: u64,
    idle_a: u64,
    idle_b: u64,
)
    requires
        entitlement_a > idle_a || entitlement_b > idle_b,
    ensures
        token_a_binds(entitlement_a, entitlement_b, idle_a, idle_b) ==> entitlement_a > idle_a,
        !token_a_binds(entitlement_a, entitlement_b, idle_a, idle_b) && entitlement_b != 0
            ==> entitlement_b > idle_b,
{
    let ea = entitlement_a as int;
    let eb = entitlement_b as int;
    let ia = idle_a as int;
    let ib = idle_b as int;
    if ea <= ia {
        // Then token B is short, and token A cannot bind.
        assert(ea * ib <= eb * ia) by (nonlinear_arith)
            requires
                0 <= ea <= ia,
                0 <= ib < eb,
        ;
    }
    if eb <= ib && eb != 0 {
        // Then token A is short, and token A binds.
        assert(ea * ib > eb * ia) by (nonlinear_arith)
            requires
                0 <= ia < ea,
                0 < eb <= ib,
        ;
    }
}

/// Payouts never exceed what is idle, nor what the holder is entitled to.
pub proof fn lemma_payouts_within_limits(
    entitlement_a: u64,
    entitlement_b: u64,
    idle_a: u64,
    idle_b: u64,
)
    ensures
        limited_payouts(entitlement_a, entitlement_b, idle_a, idle_b) matches Ok(payouts) ==> {
            &&& payouts.0 <= idle_a
            &&& payouts.1 <= idle_b
            &&& payouts.0 <= entitlement_a
            &&& payouts.1 <= entitlement_b
        },
{
    let ea = entitlement_a as int;
    let eb = entitlement_b as int;
    let ia = idle_a as int;
    let ib = idle_b as int;
    if entitlement_a <= idle_a && entitlement_b <= idle_b {
    } else {
        lemma_binding_token_is_short(entitlement_a, entitlement_b, idle_a, idle_b);
        if token_a_binds(entitlement_a, entitlement_b, idle_a, idle_b) {
            lemma_part_at_most_whole(entitlement_b, idle_a, entitlement_a);
            assert(eb * ia <= ea * ib);
            lemma_multiply_divide_le(eb * ia, ea, ib);
        } else if entitlement_b != 0 {
            lemma_part_at_most_whole(entitlement_a, idle_b, entitlement_b);
            assert(ea * ib <= eb * ia);
            lemma_multiply_divide_le(ea * ib, eb, ia);
        }
    }
}

/// Where the idle balance falls short of the entitlement for both tokens,
/// the payout is defined: the binding token pays out exactly its idle
/// balance, and the other entitlement is scaled by the binding token's idle
/// balance over its entitlement, which its own idle balance covers.
pub proof fn lemma_both_tokens_short(
    entitlement_a: u64,
    entitlement_b: u64,
    idle_a: u64,
    idle_b: u64,
)
    requires
        entitlement_a > idle_a,
        entitlement_b > idle_b,
    ensures
        token_a_binds(entitlement_a, entitlement_b, idle_a, idle_b) ==> limited_payouts(
            entitlement_a,
            entitlement_b,
            idle_a,
            idle_b,
        ) == Ok::<(u64, u64), VaultError>(
            (idle_a, ((entitlement_b * idle_a) / (entitlement_a as int)) as u64),
        ) && (entitlement_b * idle_a) / (entitlement_a as int) <= idle_b,
        !token_a_binds(entitlement_a, entitlement_b, idle_a, idle_b) ==> limited_payouts(
            entitlement_a,
            entitlement_b,
            idle_a,
            idle_b,
        ) == Ok::<(u64, u64), VaultError>(
            (((entitlement_a * idle_b) / (entitlement_b as int)) as u64, idle_b),
        ) && (entitlement_a * idle_b) / (entitlement_b as int) <= idle_a,
{
    lemma_payouts_within_limits(entitlement_a, entitlement_b, idle_a, idle_b);
    if token_a_binds(entitlement_a, entitlement_b, idle_a, idle_b) {
        lemma_part_at_most_whole(entitlement_b, idle_a, entitlement_a);
    } else {
        lemma_part_at_most_whole(entitlement_a, idle_b, entitlement_b);
    }
}

/// A withdrawal whose minimum for token A is above the token A entitlement
/// never succeeds. It fails with `SlippageExceeded` whenever the
/// entitlements and the shrunk payouts are defined, and with
/// `ArithmeticOverflow` otherwise.
pub proof fn lemma_minimum_above_entitlement_fails(
    share_amount: u64,
    total_shares: u64,
    total_token_a_amount: u64,
    total_token_b_amount: u64,
    idle_a: u64,
    idle_b: u64,
    token_min_a_amount: u64,
    token_min_b_amount: u64,
)
    requires
        proportional_amount(total_token_a_amount, share_amount, total_shares) matches Ok(
            entitlement_a,
        ) && token_min_a_amount > entitlement_a,
    ensures
        redemption(
            share_amount,
            total_shares,
            total_token_a_amount,
            total_token_b_amount,
            idle_a,
            idle_b,
            token_min_a_amount,
            token_min_b_amount,
        ) is Err,
        (proportional_amount(total_token_b_amount, share_amount, total_shares) matches Ok(
            entitlement_b,
        ) && limited_payouts(
            proportional_amount(total_token_a_amount, share_amount, total_shares)->Ok_0,
            entitlement_b,
            idle_a,
            idle_b,
        ) is Ok) <==> redemption(
            share_amount,
            total_shares,
            total_token_a_amount,
            total_token_b_amount,
            idle_a,
            idle_b,
            token_min_a_amount,
            token_min_b_amount,
        ) == Err::<Redemption, VaultError>(VaultError::SlippageExceeded),
{
    let entitlement_a = proportional_amount(total_token_a_amount, share_amount, total_shares)->Ok_0;
    match proportional_amount(total_token_b_amount, share_amount, total_shares) {
        Ok(entitlement_b) => {
            lemma_payouts_within_limits(entitlement_a, entitlement_b, idle_a, idle_b);
        },
        Err(_) => {},
    }
}

/// A withdrawal that succeeds pays no more than is idle and no less than
/// the caller's minimums, and burns no more shares than were offered.
/// Where both entitlements were covered it pays them in full and burns
/// exactly the shares offered.
pub proof fn lemma_redemption_bounds(
    share_amount: u64,
    total_shares: u64,
    total_token_a_amount: u64,
    total_token_b_amount: u64,
    idle_a: u64,
    idle_b: u64,
    token_min_a_amount: u64,
    token_min_b_amount: u64,
)
    requires
        redemption(
            share_amount,
            total_shares,
            total_token_a_amount,
            total_token_b_amount,
            idle_a,
            idle_b,
            token_min_a_amount,
            token_min_b_amount,
        ) is Ok,
    ensures
        ({
            let paid = redemption(
                share_amount,
                total_shares,
                total_token_a_amount,
                total_token_b_amount,
                idle_a,
                idle_b,
                token_min_a_amount,
                token_min_b_amount,
            )->Ok_0;
            let entitlement_a = proportional_amount(
                total_token_a_amount,
                share_amount,
                total_shares,
            )->Ok_0;
            let entitlement_b = proportional_amount(
                total_token_b_amount,
                share_amount,
                total_shares,
            )->Ok_0;
            &&& token_min_a_amount <= paid.token_a_amount <= idle_a
            &&& token_min_b_amount <= paid.token_b_amount <= idle_b
            &&& paid.token_a_amount <= entitlement_a
            &&& paid.token_b_amount <= entitlement_b
            &&& paid.burn_amount <= share_amount
            &&& entitlement_a <= idle_a && entitlement_b <= idle_b ==> {
                &&& paid.token_a_amount == entitlement_a
                &&& paid.token_b_amount == entitlement_b
                &&& paid.burn_amount == share_amount
            }
        }),
{
    let entitlement_a = proportional_amount(total_token_a_amount, share_amount, total_shares)->Ok_0;
    let entitlement_b = proportional_amount(total_token_b_amount, share_amount, total_shares)->Ok_0;
    lemma_payouts_within_limits(entitlement_a, entitlement_b, idle_a, idle_b);
    let payouts = limited_payouts(entitlement_a, entitlement_b, idle_a, idle_b)->Ok_0;
    assert(entitlement_a != 0);
    lemma_part_at_most_whole(share_amount, payouts.0, entitlement_a);
    if entitlement_a <= idle_a && entitlement_b <= idle_b {
        let s = share_amount as int;
        let e = entitlement_a as int;
        assert(s * e == e * s) by (nonlinear_arith);
        lemma_div_multiples_vanish(s, e);
    }
}

} // verus!
