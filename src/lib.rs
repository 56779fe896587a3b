//! Commit-and-reveal fair exchange over Bitcoin transactions: rank commitments,
//! spending scripts, partially signed transactions and the transaction builder
//! that moves funds through deposit, challenge and sweep.

pub mod crypto;
pub mod tx;
pub mod script;
pub mod commitment;
pub mod errors;
pub mod psbt;
pub mod builder;
pub mod prover;
pub mod protocol;
pub mod staged;
