//! A verified core for driving Substrate-style chains in tests: instance
//! registries for timestamp inherents, transaction pool bookkeeping, relay chain
//! parachain registration, collation hand-off and companion orchestration.

pub mod builder;
pub mod digest;
pub mod inherent;
pub mod provider;
pub mod traits;
pub mod types;

pub use types::{Bytes, StoragePair};
