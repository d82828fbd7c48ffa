//! A custodial staking ledger: users deposit a native value unit into a pooled
//! treasury and receive a fungible receipt-token one for one; burning the
//! receipt-token redeems the deposit; a designated administrator may withdraw
//! from the treasury subject to a per-call limit and a cooldown.
//!
//! The staking engine itself is a pure state machine over plain balances; the
//! transactional substrate that sequences calls, verifies signatures and holds
//! the actual accounts is an external collaborator, and the pool's two custody
//! identities are derived, keyless addresses the ledger's SDK computes.

pub mod authority;
pub mod engine;
pub mod errors;
pub mod events;
pub mod identity;
pub mod laws;
pub mod pool;
