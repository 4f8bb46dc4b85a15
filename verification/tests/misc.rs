use fudge_core::provider::state::StateProvider;
use fudge_core::inherent::{ArgsProvider, FudgeDummyInherentRelayParachain, FudgeInherentRelayParachain};
use fudge_core::provider::backend::{BlocksPruning, DiskDatabaseType, DiskDb, MemDb, PruningMode};
use fudge_core::provider::DefaultClient;
use fudge_core::traits::{AuthorityProvider, DefaultAuthorityProvider};

#[test]
fn unit_extra_arguments() {
    <() as ArgsProvider<()>>::extra();
}

#[test]
fn dummy_inherent_keeps_its_parent() {
    let inherent = FudgeDummyInherentRelayParachain::new(17u32);
    assert_eq!(*inherent.parent_head(), 17);
    let inherent: FudgeInherentRelayParachain<u32, (), u8> = FudgeInherentRelayParachain::new((), 3, Vec::new(), vec![1]);
    assert_eq!(*inherent.parent_head(), 3);
}

#[test]
fn default_authority_has_no_misc_storage() {
    assert!(DefaultAuthorityProvider::misc().is_empty());
}

#[test]
fn database_settings_chain() {
    let mut mem: MemDb<()> = MemDb::new();
    mem.with_blocks_pruning(BlocksPruning::KeepFinalized)
        .with_trie_cache(16)
        .no_trie_cache()
        .with_state_pruning(PruningMode::Constrained(Some(8)))
        .no_state_pruning()
        .with_create_flag(false)
        .with_canonicalization_delay(2);
    let mut disk: DiskDb<()> = DiskDb::new(std::path::PathBuf::from("/tmp/db"));
    disk.with_database_type(DiskDatabaseType::ParityDb)
        .with_blocks_pruning(BlocksPruning::KeepRecent(3))
        .with_trie_cache(1)
        .with_canonicalization_delay(5);
    assert_eq!(disk.db_path(), &std::path::PathBuf::from("/tmp/db"));
    let _client: DefaultClient<(), (), ()> = DefaultClient::new();
}

#[test]
fn genesis_storage_holds_the_code() {
    let state = StateProvider::new(&[1, 2, 3]);
    assert_eq!(state.entries(), &vec![(b":code".to_vec(), vec![1, 2, 3])]);
    let mut state = StateProvider::empty();
    assert!(state.entries().is_empty());
    state
        .insert_storage(vec![(vec![1], vec![10]), (vec![2], vec![20])])
        .insert_storage(vec![(vec![1], vec![11])]);
    assert_eq!(state.entries(), &vec![(vec![2], vec![20]), (vec![1], vec![11])]);
    let from = StateProvider::from_storage(vec![(vec![5], vec![1]), (vec![5], vec![2])]);
    assert_eq!(from.entries(), &vec![(vec![5], vec![2])]);
}
