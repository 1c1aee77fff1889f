use vstd::prelude::*;

verus! {

/// The ways in which a vault operation can fail. Every failure is terminal:
/// the operation is abandoned before any token is moved.
#[derive(Debug, Clone, Copy, PartialEq, Eq, Structural)]
pub enum VaultError {
    /// The liquidity curve rejected its inputs, or summing idle and position
    /// amounts left the 64-bit range.
    CalculationFailure,
    /// A payout fell below the minimum the caller was willing to accept.
    SlippageExceeded,
    /// A checked multiplication, division or narrowing left the representable
    /// range, or a divisor was zero.
    ArithmeticOverflow,
}

} // verus!
