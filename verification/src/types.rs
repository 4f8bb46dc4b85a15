//! Plain data shared by the builders.

use vstd::prelude::*;

verus! {

/// Raw bytes.
pub type Bytes = Vec<u8>;

/// A storage key and the value to store under it (`None` removes the key).
#[derive(Clone, Debug)]
pub struct StoragePair {
    pub key: Bytes,
    pub value: Option<Bytes>,
}

} // verus!
