//! Cross-chain atomic-swap escrows: packed timelocks, the swap's immutable
//! record and its canonical hash, the escrow state machine, and a registry that
//! keeps every swap keyed by its order hash.

pub mod timelock;
pub mod immutables;
pub mod escrow;
pub mod factory;
pub mod deployed;
