//! Bonding-curve pricing and settlement for a supply token backed by a
//! reserve currency: fixed-point helpers, five curve strategies, the
//! configuration records and the buy / sell / administration rules.

pub mod numeric;
pub mod curves;
pub mod error;
pub mod state;
pub mod msg;
pub mod contract;
