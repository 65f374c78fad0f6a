//! A payment ledger: deposits, withdrawals, disputes, resolutions and
//! chargebacks applied one at a time to per-client balances.
//!
//! Amounts are exact decimals with four fractional digits. The stores are
//! injected behind traits, the engine decides what each transaction does, and
//! the ledger module states the engine's rules as a mathematical model with
//! the laws that follow from them.
//!
//! What is believed rather than proved stands in two places: `decimal`
//! holds the calls into `rust_decimal`, `text` those into the integer
//! parser of the standard library. `ports` declares `anyhow::Error` as an
//! opaque type.

pub mod amount;
pub mod decimal;
pub mod engine;
pub mod ledger;
pub mod memory;
pub mod model;
pub mod ports;
pub mod text;
