//! Arithmetic and valuation helpers shared by the vault operations.

pub mod conservation;
pub mod liquidity_math;
pub mod math;
pub mod redemption;
pub mod utils;
