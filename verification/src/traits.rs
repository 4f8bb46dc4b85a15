//! Traits that chains implement to hand their own storage to the builders.

use crate::types::StoragePair;
use vstd::prelude::*;

verus! {

/// Implemented by chains that provide the authority storage they want to swap
/// in while being driven by the builders.
pub trait AuthorityProvider {
    /// Whether the provider knows the block production storage.
    spec fn provides_block_production() -> bool;

    /// The storage that makes the chain's block production work.
    fn block_production() -> (r: Vec<StoragePair>)
        requires
            Self::provides_block_production(),
    ;

    /// Any other storage to swap in.
    fn misc() -> (r: Vec<StoragePair>);
}

/// The provider for chains with nothing to swap in; it knows no block
/// production storage yet.
pub struct DefaultAuthorityProvider;

impl AuthorityProvider for DefaultAuthorityProvider {
    open spec fn provides_block_production() -> bool {
        false
    }

    fn block_production() -> (r: Vec<StoragePair>) {
        unreached()
    }

    fn misc() -> (r: Vec<StoragePair>)
        ensures
            r@ == Seq::<StoragePair>::empty(),
    {
        Vec::new()
    }
}

} // verus!
