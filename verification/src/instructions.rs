//! The vault's operations, from a snapshot of the fund to a plan for custody
//! or a request to the liquidity protocol.

pub mod custody;
pub mod deposit;
pub mod initialize_vault;
pub mod open_position;
pub mod remove_liquidity;
pub mod round_trip;
pub mod update_prices;
pub mod update_ticks;
pub mod withdraw;
