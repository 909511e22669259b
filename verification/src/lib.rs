//! A minimal hash-linked ledger: blocks bound to their predecessors by a
//! SHA-256 digest over their fields, with a validator that detects tampering,
//! broken linkage and out-of-order timestamps.

pub mod block;
pub mod clock;
pub mod digits;
pub mod hashing;

pub mod chain;

pub use block::Block;
pub use chain::{check_chain, validate_chain, BlockReport};
pub use clock::now;
