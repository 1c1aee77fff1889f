//! Accounting engine of a two-token vault whose funds are split between idle
//! custodial balances and one concentrated-liquidity position.
//!
//! The engine computes; it moves nothing. Each operation reads one snapshot
//! of the fund, and answers with the custody instructions that carry it out,
//! or with the error that stopped it before any of them was issued.

pub mod errors;
pub mod instructions;
pub mod state;
pub mod util;
