use fudge_core::builder::core_builder::{
    commit_plan, maintains_pool, needs_revert, pool_state_from_ready, BlockQueue, CommitPlan, ImportOutcome,
    Operation, PoolState, TransitionCache,
};
use fudge_core::StoragePair;

#[test]
fn pool_states() {
    assert_eq!(pool_state_from_ready(0), PoolState::Empty);
    assert_eq!(pool_state_from_ready(3), PoolState::Busy(3));
    assert!(Operation::Commit != Operation::DryRun);
}

#[test]
fn transitions_are_cached_in_order() {
    let mut cache = TransitionCache::new();
    cache.append_transition(StoragePair { key: vec![1], value: None });
    cache.append_transitions(vec![
        StoragePair { key: vec![2], value: Some(vec![3]) },
        StoragePair { key: vec![4], value: None },
    ]);
}

#[test]
fn built_blocks_are_imported_in_order() {
    let mut queue: BlockQueue<&str> = BlockQueue::new();
    assert!(!queue.has_staged());
    queue.stage("first");
    assert!(queue.has_staged());
    let b = queue.take_staged().unwrap();
    queue.record_import(b);
    assert!(queue.take_staged().is_none());
    queue.stage("second");
    let b = queue.take_staged().unwrap();
    queue.record_import(b);
    assert_eq!(queue.imports(), &vec!["first", "second"]);
}

#[test]
fn committing_plans() {
    assert_eq!(commit_plan(true, true), CommitPlan::MutateGenesis);
    assert_eq!(commit_plan(false, true), CommitPlan::RevertThenMutate);
    assert_eq!(commit_plan(false, false), CommitPlan::Mutate);
    assert!(needs_revert(true));
    assert!(!needs_revert(false));
}

#[test]
fn only_imported_blocks_maintain_the_pool() {
    assert!(maintains_pool(ImportOutcome::Imported));
    assert!(!maintains_pool(ImportOutcome::AlreadyInChain));
    assert!(!maintains_pool(ImportOutcome::KnownBad));
    assert!(!maintains_pool(ImportOutcome::UnknownParent));
    assert!(!maintains_pool(ImportOutcome::MissingState));
}
