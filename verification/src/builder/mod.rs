//! Bookkeeping of the block builders: what they stage, import and cache, and
//! the decisions they take around the chain's backend.

pub mod companion;
pub mod core_builder;
pub mod parachain;
pub mod relay_chain;

pub use core_builder::PoolState;
