//! The fund record and the read-only snapshots an operation works from.

pub mod snapshot;
pub mod vault;
