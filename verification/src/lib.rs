//! Balance-gated activation of a mining client.
//!
//! The crate holds the decisions of the "activating" phase: whether an observed
//! balance is enough to attempt activation, when the start-mining handshake is
//! to be invoked, and how its outcome is written to the shared miner status.
//! The handshake itself, the balance source and the rendering are the
//! caller's: the caller performs each [`activation::Action`] and hands the
//! outcome back.

pub mod activation;
pub mod balance;
pub mod laws;
pub mod status;
