//! A harness that drives interchangeable Ed25519 backends through one fixed
//! operation table, and builds randomized, self-consistent fixtures of signed
//! messages with any of them.

pub mod batch;
pub mod dalek;
pub mod driver;
pub mod keys;
pub mod random;
pub mod laws;
