//! Resolves a wallet "send" request against the wallet's unspent outputs
//! into a concrete, safe spend plan, protecting inscription-bearing and
//! rune-bearing outputs from accidental loss, and sequences the hand-off to
//! the transaction-construction and broadcast collaborators.

pub mod chain_data;
pub mod dispatch;
pub mod guard;
pub mod resolver;
pub mod types;

pub use types::Output;
