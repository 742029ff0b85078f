//! Two coupled ledgers: a non-fungible-token ownership registry with
//! approvals and a safe-transfer acknowledgment protocol, and a booking
//! ledger built on top of it that registers site creators, splits booking
//! fees between a creator and an administrator, and tracks withdrawable
//! balances.
//!
//! All state lives in plain values owned by one aggregate per component;
//! the host environment (caller identity, attached payment, receiver
//! callbacks, payouts) is represented by arguments and results, so every
//! state transition here is verified.

pub mod account;
pub mod booking;
pub mod errors;
pub mod events;
pub mod erc721;
pub mod operators;
pub mod sites;
pub mod slots;
pub mod table;

pub use account::Account;
