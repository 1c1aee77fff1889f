use vstd::prelude::*;

verus! {

/// One of the fund's two reserve tokens.
#[derive(Debug, Clone, Copy, PartialEq, Eq, Structural)]
pub enum ReserveToken {
    A,
    B,
}

/// A token movement that an operation asks custody to carry out. Custody
/// carries out the instructions of an operation in order, all or none.
#[derive(Debug, Clone, Copy, PartialEq, Eq, Structural)]
pub enum CustodyInstruction {
    /// Move `amount` of a reserve token from the user into the fund.
    TransferIn { token: ReserveToken, amount: u64 },
    /// Move `amount` of a reserve token from the fund to the user.
    TransferOut { token: ReserveToken, amount: u64 },
    /// Mint `amount` shares to the user.
    MintShares { amount: u64 },
    /// Burn `amount` of the user's shares.
    BurnShares { amount: u64 },
}

/// The transfer of `amount` into the fund, which is no instruction at all
/// when the amount is zero.
pub open spec fn transfer_in(token: ReserveToken, amount: u64) -> Seq<CustodyInstruction> {
    if amount > 0 {
        seq![CustodyInstruction::TransferIn { token, amount }]
    } else {
        Seq::empty()
    }
}

/// The transfer of `amount` out of the fund, which is no instruction at all
/// when the amount is zero.
pub open spec fn transfer_out(token: ReserveToken, amount: u64) -> Seq<CustodyInstruction> {
    if amount > 0 {
        seq![CustodyInstruction::TransferOut { token, amount }]
    } else {
        Seq::empty()
    }
}

/// What custody does for a deposit: it takes in each token deposited, then
/// mints the shares.
pub open spec fn deposit_instructions(amount_a: u64, amount_b: u64, share_amount: u64) -> Seq<
    CustodyInstruction,
> {
    transfer_in(ReserveToken::A, amount_a) + transfer_in(ReserveToken::B, amount_b)
        + seq![CustodyInstruction::MintShares { amount: share_amount }]
}

/// What custody does for a withdrawal: it pays out each token owed, then
/// burns the shares.
pub open spec fn withdraw_instructions(
    token_a_amount: u64,
    token_b_amount: u64,
    burn_amount: u64,
) -> Seq<CustodyInstruction> {
    transfer_out(ReserveToken::A, token_a_amount) + transfer_out(ReserveToken::B, token_b_amount)
        + seq![CustodyInstruction::BurnShares { amount: burn_amount }]
}

/// Lists the custody instructions of a deposit.
pub fn plan_deposit(amount_a: u64, amount_b: u64, share_amount: u64) -> (instructions: Vec<
    CustodyInstruction,
>)
    ensures
        instructions@ == deposit_instructions(amount_a, amount_b, share_amount),
{
    let mut instructions: Vec<CustodyInstruction> = Vec::new();
    if amount_a > 0 {
        instructions.push(CustodyInstruction::TransferIn { token: ReserveToken::A, amount: amount_a });
    }
    if amount_b > 0 {
        instructions.push(CustodyInstruction::TransferIn { token: ReserveToken::B, amount: amount_b });
    }
    instructions.push(CustodyInstruction::MintShares { amount: share_amount });
    assert(instructions@ =~= deposit_instructions(amount_a, amount_b, share_amount));
    instructions
}

/// Lists the custody instructions of a withdrawal.
pub fn plan_withdrawal(token_a_amount: u64, token_b_amount: u64, burn_amount: u64) -> (instructions:
    Vec<CustodyInstruction>)
    ensures
        instructions@ == withdraw_instructions(token_a_amount, token_b_amount, burn_amount),
{
    let mut instructions: Vec<CustodyInstruction> = Vec::new();
    if token_a_amount > 0 {
        instructions.push(
            CustodyInstruction::TransferOut { token: ReserveToken::A, amount: token_a_amount },
        );
    }
    if token_b_amount > 0 {
        instructions.push(
            CustodyInstruction::TransferOut { token: ReserveToken::B, amount: token_b_amount },
        );
    }
    instructions.push(CustodyInstruction::BurnShares { amount: burn_amount });
    assert(instructions@ =~= withdraw_instructions(token_a_amount, token_b_amount, burn_amount));
    instructions
}

} // verus!
