//! A verified sentinel pool: verifier staking, governance thresholds, withdrawals
//! and fraud slashing for the sentinel set of a Soroban contract.
//!
//! [`SentinelPool`] answers the contract's calls on a [`PoolEnv`], the part of the
//! Soroban environment that a call reads and changes. What each call does is stated
//! over the mathematical state in [`model`]. What each call is for is proved in
//! [`behaviour`], in terms of the stored numbers, and what holds of the pool as a whole
//! in [`laws`].

pub mod behaviour;
pub mod bytes;
pub mod env;
pub mod host;
pub mod laws;
pub mod model;
pub mod pool;
pub mod tables;
pub mod types;

pub use env::{Instance, PoolEnv};
pub use model::Call;
pub use pool::SentinelPool;
pub use tables::{ProofTable, StakeTable, StakedAtTable};
pub use types::{
    Address, DataKey, Error, Event, SlashedEvent, StakedEvent, Symbol, ThresholdUpdatedEvent,
    WithdrawnEvent,
};
