use fudge_core::builder::parachain::uses_legacy_collation_info;
use fudge_core::builder::parachain::{CollatorSlots, Error};
use fudge_core::builder::relay_chain::CollationJudgement;

#[test]
fn approved_blocks_are_imported() {
    let mut slots: CollatorSlots<u32> = CollatorSlots::new();
    slots.stage_build(1);
    assert_eq!(slots.next_build(), Some(&1));
    slots.approve().unwrap();
    assert_eq!(slots.next_build(), None);
    assert_eq!(slots.next_import(), Some(&1));
    assert!(slots.complete_import());
    assert_eq!(slots.imports(), &vec![1]);
    assert_eq!(slots.next_import(), None);
    assert!(!slots.complete_import());
}

#[test]
fn rejected_blocks_are_dropped() {
    let mut slots: CollatorSlots<u32> = CollatorSlots::new();
    slots.stage_build(1);
    slots.judge(CollationJudgement::Rejected).unwrap();
    assert_eq!(slots.next_build(), None);
    assert_eq!(slots.next_import(), None);
    assert!(slots.imports().is_empty());
}

#[test]
fn judging_without_a_block_fails() {
    let mut slots: CollatorSlots<u32> = CollatorSlots::new();
    assert!(matches!(slots.approve(), Err(Error::NextBlockNotFound)));
    assert!(matches!(slots.reject(), Err(Error::NextBlockNotFound)));
    assert!(matches!(slots.judge(CollationJudgement::Approved), Err(Error::NextBlockNotFound)));
}

#[test]
fn a_new_build_replaces_the_pending_one() {
    let mut slots: CollatorSlots<u32> = CollatorSlots::new();
    slots.stage_build(1);
    slots.stage_build(2);
    slots.judge(CollationJudgement::Approved).unwrap();
    assert_eq!(slots.next_import(), Some(&2));
}

#[test]
fn old_collation_info_api() {
    assert!(uses_legacy_collation_info(1));
    assert!(!uses_legacy_collation_info(2));
    assert!(!uses_legacy_collation_info(3));
}
