//! Ledger states for generated test chains, network upgrade parameters,
//! block headers and their hashes, block commitments, and the decisions of
//! the node's async runtime component.

pub mod parameters;
pub mod block;
pub mod commitment;
pub mod crypto;
pub mod ledger;
pub mod strategy;
pub mod runtime;
