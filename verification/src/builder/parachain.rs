//! The parachain side of the builders: what a parachain offers the relay
//! chain, and the hand-off of its built blocks through the collator.

use crate::builder::relay_chain::CollationJudgement;
use vstd::prelude::*;

verus! {

/// Errors of the parachain builder and its collator.
#[derive(Debug)]
pub enum Error {
    CoreBuilder(String),
    Initiator(String),
    APIVersionRetrieval(String),
    APIVersionNotFound,
    CollationInfoCollectionBeforeV2(String),
    CollationInfoCollection(String),
    CollationInfoNotFound,
    InherentDataProvidersCreation(String),
    InherentDataCreation(String),
    DigestCreation(String),
    NextBlockLockPoisoned(String),
    NextBlockNotFound,
    NextImportLockPoisoned(String),
    HeadDataDecoding(String),
    CompactProofCreation(String),
}

/// Whether the collation information of a block must be collected with the
/// runtime API of before version 2: only runtimes whose `CollectCollationInfo`
/// API is older than version 2 need it.
pub fn uses_legacy_collation_info(api_version: u32) -> (r: bool)
    ensures
        r == (api_version < 2),
{
    api_version < 2
}

/// A parachain block as the relay chain needs it: the head it builds on, the
/// encoded block and the validation code.
pub struct FudgeParaBuild {
    pub parent_head: Vec<u8>,
    pub block: Vec<u8>,
    pub code: Vec<u8>,
}

/// A parachain as the relay chain registers it: its identifier, its head data
/// and its validation code.
pub struct FudgeParaChain {
    pub id: u32,
    pub head: Vec<u8>,
    pub code: Vec<u8>,
}

/// The blocks a parachain builder shares with its collator: the block built
/// last and not yet judged, the block the relay chain approved and the
/// parachain has still to import, and the blocks imported so far.
pub struct CollatorSlots<T> {
    next_block: Option<T>,
    next_import: Option<T>,
    imports: Vec<T>,
}

impl<T> CollatorSlots<T> {
    /// The block built and waiting for the relay chain's verdict.
    pub closed spec fn pending(&self) -> Option<T> {
        self.next_block
    }

    /// The approved block waiting for import.
    pub closed spec fn approved(&self) -> Option<T> {
        self.next_import
    }

    /// The blocks imported so far, oldest first.
    pub closed spec fn imported(&self) -> Seq<T> {
        self.imports@
    }

    /// Slots with nothing built, approved or imported.
    pub fn new() -> (r: Self)
        ensures
            r.pending() is None,
            r.approved() is None,
            r.imported() == Seq::<T>::empty(),
    {
        CollatorSlots { next_block: None, next_import: None, imports: Vec::new() }
    }

    /// Offers a freshly built block to the relay chain, replacing any block
    /// that was still waiting for a verdict.
    pub fn stage_build(&mut self, block: T)
        ensures
            final(self).pending() == Some(block),
            final(self).approved() == old(self).approved(),
            final(self).imported() == old(self).imported(),
    {
        self.next_block = Some(block);
    }

    /// The block waiting for a verdict, if any.
    pub fn next_build(&self) -> (r: Option<&T>)
        ensures
            r matches Some(b) ==> self.pending() == Some(*b),
            r is None <==> self.pending() is None,
    {
        match &self.next_block {
            Some(b) => Some(b),
            None => None,
        }
    }

    /// The relay chain approved the pending block: it becomes the block to
    /// import. Without a pending block nothing changes and `NextBlockNotFound`
    /// is returned.
    pub fn approve(&mut self) -> (r: Result<(), Error>)
        ensures
            r is Ok <==> old(self).pending() is Some,
            r matches Err(e) ==> e is NextBlockNotFound,
            r is Ok ==> final(self).pending() is None && final(self).approved() == old(self).pending(),
            r is Err ==> final(self).approved() == old(self).approved() && final(self).pending() is None,
            final(self).imported() == old(self).imported(),
    {
        match self.next_block.take() {
            Some(build) => {
                self.next_import = Some(build);
                Ok(())
            },
            None => Err(Error::NextBlockNotFound),
        }
    }

    /// The relay chain rejected the pending block: it is dropped. Without a
    /// pending block `NextBlockNotFound` is returned.
    pub fn reject(&mut self) -> (r: Result<(), Error>)
        ensures
            r is Ok <==> old(self).pending() is Some,
            r matches Err(e) ==> e is NextBlockNotFound,
            final(self).pending() is None,
            final(self).approved() == old(self).approved(),
            final(self).imported() == old(self).imported(),
    {
        match self.next_block.take() {
            Some(_build) => Ok(()),
            None => Err(Error::NextBlockNotFound),
        }
    }

    /// Applies the relay chain's verdict on the pending block.
    pub fn judge(&mut self, judgement: CollationJudgement) -> (r: Result<(), Error>)
        ensures
            r is Ok <==> old(self).pending() is Some,
            r matches Err(e) ==> e is NextBlockNotFound,
            final(self).pending() is None,
            final(self).imported() == old(self).imported(),
            judgement == CollationJudgement::Approved && r is Ok ==> final(self).approved() == old(self).pending(),
            judgement == CollationJudgement::Rejected || r is Err ==> final(self).approved() == old(self).approved(),
    {
        match judgement {
            CollationJudgement::Approved => self.approve(),
            CollationJudgement::Rejected => self.reject(),
        }
    }

    /// The approved block waiting for import, if any.
    pub fn next_import(&self) -> (r: Option<&T>)
        ensures
            r matches Some(b) ==> self.approved() == Some(*b),
            r is None <==> self.approved() is None,
    {
        match &self.next_import {
            Some(b) => Some(b),
            None => None,
        }
    }

    /// Records that the approved block was imported: it joins the imported
    /// blocks and the slot empties. Without an approved block nothing changes.
    pub fn complete_import(&mut self) -> (r: bool)
        ensures
            r == old(self).approved() is Some,
            final(self).pending() == old(self).pending(),
            final(self).approved() is None,
            old(self).approved() matches Some(b) ==> final(self).imported() == old(self).imported().push(b),
            old(self).approved() is None ==> final(self).imported() == old(self).imported(),
    {
        match self.next_import.take() {
            Some(b) => {
                self.imports.push(b);
                true
            },
            None => false,
        }
    }

    /// The imported blocks, oldest first.
    pub fn imports(&self) -> (r: &Vec<T>)
        ensures
            r@ == self.imported(),
    {
        &self.imports
    }
}

} // verus!
