//! Pre-runtime digests for block building: the slot that an AuRa or BABE
//! pre-digest announces, read from the block's inherent data.

pub mod aura;
pub mod babe;

pub use aura::Digest as FudgeAuraDigest;
pub use babe::Digest as FudgeBabeDigest;

use vstd::prelude::*;

verus! {

/// Errors when a slot cannot be read from the inherent data.
#[derive(Debug)]
pub enum Error {
    /// The timestamp inherent data did not decode.
    TimestampInherentDataRetrieval(String),
    /// The inherent data holds no timestamp.
    TimestampInherentDataNotFound,
    /// The BABE slot inherent data did not decode.
    BabeInherentDataRetrieval(String),
    /// The inherent data holds no BABE slot.
    BabeInherentDataNotFound,
}

} // verus!
