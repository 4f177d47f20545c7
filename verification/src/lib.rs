//! A donation ledger for a Soroban host: a running total and the identity of
//! the most recent donor, kept in the host's persistent storage.
//!
//! `keys` names the storage slots, `host` holds everything that touches the
//! Soroban SDK, `ledger` is the mathematical model of the ledger and of one
//! donation, `contract` holds the operations, and `laws` states what follows
//! for sequences of donations.

pub mod contract;
pub mod host;
pub mod keys;
pub mod laws;
pub mod ledger;

pub use contract::DonationContract;
pub use keys::DataKey;
pub use ledger::DonationError;
pub use ledger::Ledger;
