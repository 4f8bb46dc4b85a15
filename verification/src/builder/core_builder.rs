//! The state that every builder keeps besides its client: the transition
//! cache, the block staged for import and the blocks imported so far.

use crate::types::StoragePair;
use vstd::prelude::*;

verus! {

/// Whether a state access only reads (`DryRun`) or writes its changes back
/// into the chain's latest block (`Commit`).
#[derive(Copy, Clone, Eq, PartialOrd, PartialEq, Ord, Hash, Debug, Structural)]
pub enum Operation {
    Commit,
    DryRun,
}

/// How many transactions are ready in a builder's pool.
#[derive(Copy, Clone, Eq, PartialOrd, PartialEq, Ord, Hash, Debug, Structural)]
pub enum PoolState {
    Empty,
    Busy(usize),
}

/// The pool state for `ready` transactions that are ready for inclusion.
pub fn pool_state_from_ready(ready: usize) -> (r: PoolState)
    ensures
        ready == 0 ==> r == PoolState::Empty,
        ready != 0 ==> r == PoolState::Busy(ready),
{
    if ready == 0 {
        PoolState::Empty
    } else {
        PoolState::Busy(ready)
    }
}

/// The storage transitions a builder has cached so far, in order.
pub struct TransitionCache {
    auxilliary: Vec<StoragePair>,
}

impl TransitionCache {
    /// The cached transitions.
    pub closed spec fn transitions(&self) -> Seq<StoragePair> {
        self.auxilliary@
    }

    /// An empty cache.
    pub fn new() -> (r: Self)
        ensures
            r.transitions() == Seq::<StoragePair>::empty(),
    {
        TransitionCache { auxilliary: Vec::new() }
    }

    /// Appends a key-value pair to the cache.
    pub fn append_transition(&mut self, trans: StoragePair)
        ensures
            final(self).transitions() == old(self).transitions().push(trans),
    {
        self.auxilliary.push(trans);
    }

    /// Appends key-value pairs to the cache, in order.
    pub fn append_transitions(&mut self, auxs: Vec<StoragePair>)
        ensures
            final(self).transitions() == old(self).transitions() + auxs@,
    {
        let mut auxs = auxs;
        self.auxilliary.append(&mut auxs);
    }
}

/// The block that a builder has built and not yet imported, and the blocks it
/// has imported, oldest first.
pub struct BlockQueue<B> {
    next: Option<B>,
    imports: Vec<B>,
}

impl<B> BlockQueue<B> {
    /// The block built and waiting for import, if any.
    pub closed spec fn staged(&self) -> Option<B> {
        self.next
    }

    /// The blocks imported so far, oldest first.
    pub closed spec fn imported(&self) -> Seq<B> {
        self.imports@
    }

    /// A queue with nothing built and nothing imported.
    pub fn new() -> (r: Self)
        ensures
            r.staged() is None,
            r.imported() == Seq::<B>::empty(),
    {
        BlockQueue { next: None, imports: Vec::new() }
    }

    /// Whether a built block waits for import.
    pub fn has_staged(&self) -> (r: bool)
        ensures
            r == self.staged() is Some,
    {
        self.next.is_some()
    }

    /// Stages a freshly built block. Building while a block waits for import is
    /// a caller error.
    pub fn stage(&mut self, block: B)
        requires
            old(self).staged() is None,
        ensures
            final(self).staged() == Some(block),
            final(self).imported() == old(self).imported(),
    {
        self.next = Some(block);
    }

    /// Takes the staged block out for import; `None` when nothing was built.
    pub fn take_staged(&mut self) -> (r: Option<B>)
        ensures
            r == old(self).staged(),
            final(self).staged() is None,
            final(self).imported() == old(self).imported(),
    {
        self.next.take()
    }

    /// Records a block as imported.
    pub fn record_import(&mut self, block: B)
        ensures
            final(self).staged() == old(self).staged(),
            final(self).imported() == old(self).imported().push(block),
    {
        self.imports.push(block);
    }

    /// The imported blocks, oldest first.
    pub fn imports(&self) -> (r: &Vec<B>)
        ensures
            r@ == self.imported(),
    {
        &self.imports
    }
}

/// What a committing state access does once the state is open.
#[derive(Copy, Clone, PartialEq, Eq, Debug, Structural)]
pub enum CommitPlan {
    /// The state is the genesis state: rewrite the genesis block.
    MutateGenesis,
    /// Revert the finalized best block by one, then rewrite the latest block.
    RevertThenMutate,
    /// Rewrite the latest block.
    Mutate,
}

/// What a committing state access does, given whether the block it works on
/// is the genesis block and whether the best block is also the finalized one.
pub fn commit_plan(at_genesis: bool, best_is_finalized: bool) -> (r: CommitPlan)
    ensures
        at_genesis ==> r == CommitPlan::MutateGenesis,
        !at_genesis && best_is_finalized ==> r == CommitPlan::RevertThenMutate,
        !at_genesis && !best_is_finalized ==> r == CommitPlan::Mutate,
{
    if at_genesis {
        CommitPlan::MutateGenesis
    } else if best_is_finalized {
        CommitPlan::RevertThenMutate
    } else {
        CommitPlan::Mutate
    }
}

/// Whether the chain must be reverted before its latest block is mutated: only
/// when the best block is the finalized block.
pub fn needs_revert(best_is_finalized: bool) -> (r: bool)
    ensures
        r == best_is_finalized,
{
    best_is_finalized
}

/// The outcome of importing a block, as the client reports it.
#[derive(Copy, Clone, PartialEq, Eq, Debug, Structural)]
pub enum ImportOutcome {
    Imported,
    AlreadyInChain,
    KnownBad,
    UnknownParent,
    MissingState,
}

/// Whether the transaction pool is maintained after an import: only when the
/// block was actually imported.
pub fn maintains_pool(outcome: ImportOutcome) -> (r: bool)
    ensures
        r == (outcome == ImportOutcome::Imported),
{
    match outcome {
        ImportOutcome::Imported => true,
        _ => false,
    }
}

} // verus!
