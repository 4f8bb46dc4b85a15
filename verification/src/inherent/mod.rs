//! Inherent data providers used when building blocks.

pub mod data;
pub mod relay_parachain;
pub mod timestamp;

pub use relay_parachain::{DummyInherent as FudgeDummyInherentRelayParachain, Inherent as FudgeInherentRelayParachain};
pub use timestamp::CurrTimeProvider as FudgeInherentTimestamp;

use vstd::prelude::*;

verus! {

/// Supplies the extra arguments that inherent data providers are created with.
pub trait ArgsProvider<ExtraArgs> {
    fn extra() -> (r: ExtraArgs);
}

impl ArgsProvider<()> for () {
    fn extra() -> (r: ()) {
        ()
    }
}

} // verus!
