//! Providers of the parts a builder runs on: backends and clients.

pub mod backend;
pub mod state;

use std::marker::PhantomData;
use vstd::prelude::*;

verus! {

/// The client provider that creates the standard full client.
pub struct DefaultClient<Block, RtApi, Exec>(PhantomData<(Block, RtApi, Exec)>);

impl<Block, RtApi, Exec> DefaultClient<Block, RtApi, Exec> {
    /// The one value of the type: it carries no data.
    pub closed spec fn unique() -> Self {
        DefaultClient(PhantomData)
    }

    /// The default client provider.
    pub fn new() -> (r: Self)
        ensures
            r == Self::unique(),
    {
        Self(PhantomData)
    }
}

} // verus!
