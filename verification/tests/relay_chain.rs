use fudge_core::builder::relay_chain::{enactment_plan, onboard_para, Collators, EnactStep, ParaLifecycle, ParasStorage};
use fudge_core::builder::relay_chain::{wait_step, WaitStep};
use fudge_core::builder::parachain::FudgeParaChain;
use fudge_core::builder::relay_chain::{
    code_refs_after_onboard, collator_index, core_index_of, onboard_plan, onboarded_parachains,
    validation_code_hash, CodeByHashPrefix, CodeByHashRefsPrefix, CollationQueue, CurrentCodeHashPrefix, Error,
    HeadsPrefix, ParaLifecyclesPrefix, ParachainsPrefix, PastCodeHashPrefix,
    PendingAvailabilityCommitmentsPrefix, PendingAvailabilityPrefix,
};

/// blake2-256 of the empty input.
const EMPTY_HASH: [u8; 32] = [
    0x0e, 0x57, 0x51, 0xc0, 0x26, 0xe5, 0x43, 0xb2, 0xe8, 0xab, 0x2e, 0xb0, 0x60, 0x99, 0xda, 0xa1,
    0xd1, 0xe5, 0xdf, 0x47, 0x77, 0x8f, 0x77, 0x87, 0xfa, 0xab, 0x45, 0xcd, 0xf1, 0x2f, 0xe3, 0xa8,
];

#[test]
fn code_hash_is_blake2_256() {
    assert_eq!(validation_code_hash(&[]), EMPTY_HASH);
    let code = vec![1u8; 32];
    let h = validation_code_hash(&code);
    assert_ne!(h.to_vec(), code);
    assert_ne!(h, EMPTY_HASH);
}

#[test]
fn storage_prefixes() {
    assert_eq!(ParaLifecyclesPrefix::pallet_prefix(), "Paras");
    assert_eq!(ParaLifecyclesPrefix::STORAGE_PREFIX, "ParaLifecycles");
    assert_eq!(ParachainsPrefix::STORAGE_PREFIX, "Parachains");
    assert_eq!(ParachainsPrefix::pallet_prefix(), "Paras");
    assert_eq!(HeadsPrefix::STORAGE_PREFIX, "Heads");
    assert_eq!(HeadsPrefix::pallet_prefix(), "Paras");
    assert_eq!(CurrentCodeHashPrefix::STORAGE_PREFIX, "CurrentCodeHash");
    assert_eq!(CurrentCodeHashPrefix::pallet_prefix(), "Paras");
    assert_eq!(CodeByHashPrefix::STORAGE_PREFIX, "CodeByHash");
    assert_eq!(CodeByHashPrefix::pallet_prefix(), "Paras");
    assert_eq!(CodeByHashRefsPrefix::STORAGE_PREFIX, "CodeByHashRefs");
    assert_eq!(CodeByHashRefsPrefix::pallet_prefix(), "Paras");
    assert_eq!(PastCodeHashPrefix::STORAGE_PREFIX, "PastCodeHash");
    assert_eq!(PastCodeHashPrefix::pallet_prefix(), "Paras");
    assert_eq!(PendingAvailabilityPrefix::STORAGE_PREFIX, "PendingAvailability");
    assert_eq!(PendingAvailabilityPrefix::pallet_prefix(), "ParaInclusion");
    assert_eq!(PendingAvailabilityCommitmentsPrefix::STORAGE_PREFIX, "PendingAvailabilityCommitments");
    assert_eq!(PendingAvailabilityCommitmentsPrefix::pallet_prefix(), "ParaInclusion");
}

#[test]
fn onboarding_parachain_works() {
    let id = 2002u32;
    let code = vec![7u8, 7, 7];
    let code_hash = validation_code_hash(&code);
    let head: Vec<u8> = Vec::new();

    // First onboarding: the parachain is listed, its code becomes current.
    let plan = onboard_plan(Vec::new(), None, FudgeParaChain { id, head: head.clone(), code: code.clone() }, 0);
    assert_eq!(plan.parachains, vec![id]);
    assert_eq!(plan.past_code_hash, None);
    assert_eq!(plan.new_code_hash, Some(code_hash));
    assert_eq!(plan.head, head);
    assert_eq!(plan.code, code);

    // Onboarding again with a new head and the same code keeps the code.
    let head_new = vec![1u8, 2, 4, 5, 6];
    let plan = onboard_plan(vec![id], Some(code_hash), FudgeParaChain { id, head: head_new.clone(), code }, 1);
    assert_eq!(plan.parachains, vec![id]);
    assert_eq!(plan.past_code_hash, Some((1, code_hash)));
    assert_eq!(plan.new_code_hash, None);
    assert_eq!(plan.head, head_new);
}

#[test]
fn onboarding_new_code_replaces_the_current_code() {
    let old_hash = validation_code_hash(&[1]);
    let plan = onboard_plan(vec![5], Some(old_hash), FudgeParaChain { id: 5, head: vec![], code: vec![2] }, 9);
    assert_eq!(plan.past_code_hash, Some((9, old_hash)));
    assert_eq!(plan.new_code_hash, Some(validation_code_hash(&[2])));
}

#[test]
fn onboarding_keeps_the_list_sorted() {
    assert_eq!(onboarded_parachains(vec![1000, 3000], 2000), vec![1000, 2000, 3000]);
    assert_eq!(onboarded_parachains(vec![1000, 3000], 3000), vec![1000, 3000]);
    // A listed parachain leaves even an unsorted list as it is.
    assert_eq!(onboarded_parachains(vec![3000, 1000], 1000), vec![3000, 1000]);
    assert_eq!(onboarded_parachains(vec![3000, 1000], 2000), vec![1000, 2000, 3000]);
}

#[test]
fn code_references_after_onboarding() {
    assert_eq!(code_refs_after_onboard(0), 1);
    assert_eq!(code_refs_after_onboard(1), 1);
    assert_eq!(code_refs_after_onboard(4), 4);
}

#[test]
fn cores_follow_the_parachain_list() {
    let paras = vec![1000, 2000, 3000];
    assert_eq!(core_index_of(&paras, 2000).unwrap(), 1);
    assert_eq!(core_index_of(&paras, 1000).unwrap(), 0);
    assert!(matches!(core_index_of(&paras, 4000), Err(Error::ParachainNotOnboarded)));
}

#[test]
fn collators_are_found_by_position() {
    let registered = vec![2001, 2002, 2001];
    assert_eq!(collator_index(&registered, 2001).unwrap(), 0);
    assert_eq!(collator_index(&registered, 2002).unwrap(), 1);
    assert!(matches!(collator_index(&registered, 7), Err(Error::ParachainNotOnboarded)));
}

#[test]
fn one_collation_per_parachain() {
    let mut queue: CollationQueue<&str, u32> = CollationQueue::new();
    queue.collect(2001, Some("a"), 1);
    queue.collect(2002, None, 1);
    queue.collect(2001, Some("b"), 2);
    queue.collect(2002, Some("c"), 2);
    assert_eq!(queue.collations(), &vec![(2001, "a", 1), (2002, "c", 2)]);
    assert!(queue.has_collation(2002));
    queue.clear();
    assert!(queue.collations().is_empty());
    assert!(!queue.has_collation(2001));
}

#[test]
fn waiting_for_a_block() {
    let awaited = [7u8; 32];
    let other = [8u8; 32];
    assert_eq!(wait_step(&awaited, Some(&awaited)), WaitStep::Done);
    assert_eq!(wait_step(&awaited, Some(&other)), WaitStep::Continue);
    assert_eq!(wait_step(&awaited, None), WaitStep::ListenerClosed);
}

#[test]
fn onboarding_writes_the_paras_storage() {
    let mut storage = ParasStorage::new();
    let mut collators: Collators<&str> = Collators::new();
    let id = 2002u32;
    let code = vec![7u8, 7, 7];
    let plan = onboard_para(&mut storage, &mut collators, FudgeParaChain { id, head: Vec::new(), code: code.clone() }, "a", 0);
    assert_eq!(plan.id, id);
    assert_eq!(plan.lifecycle, ParaLifecycle::Parachain);
    assert_eq!(storage.parachains(), &vec![id]);
    assert_eq!(storage.head(id), Some(&Vec::new()));
    assert_eq!(storage.current_code_hash(id), Some(validation_code_hash(&code)));
    assert_eq!(storage.lifecycle(id), Some(ParaLifecycle::Parachain));
    assert_eq!(storage.head(7), None);

    // Onboarding a second parachain keeps the list sorted; onboarding the first
    // again with a new head replaces the head and registers its collator again.
    onboard_para(&mut storage, &mut collators, FudgeParaChain { id: 1000, head: vec![1], code: vec![1] }, "b", 1);
    let plan = onboard_para(&mut storage, &mut collators, FudgeParaChain { id, head: vec![9], code: code.clone() }, "c", 2);
    assert_eq!(plan.past_code_hash, Some((2, validation_code_hash(&code))));
    assert_eq!(plan.new_code_hash, None);
    assert_eq!(plan.head, vec![9]);
    let plan = onboard_para(&mut storage, &mut collators, FudgeParaChain { id: 1000, head: vec![2], code: vec![3] }, "d", 3);
    assert_eq!(plan.past_code_hash, Some((3, validation_code_hash(&[1]))));
    assert_eq!(plan.new_code_hash, Some(validation_code_hash(&[3])));
    assert_eq!(storage.current_code_hash(1000), Some(validation_code_hash(&[3])));
    assert_eq!(storage.parachains(), &vec![1000, id]);
    assert_eq!(storage.head(id), Some(&vec![9]));
    assert_eq!(collators.ids(), vec![id, 1000, id, 1000]);
    assert_eq!(collators.collator(id).ok(), Some(&"a"));
    assert!(matches!(collators.collator(5), Err(Error::ParachainNotOnboarded)));
}

#[test]
fn enacting_collations() {
    let parachains = vec![1000, 2000];
    let registered = vec![2000, 1000];
    assert_eq!(
        enactment_plan(&parachains, &registered, &vec![2000, 1000]),
        vec![
            EnactStep::Enact(2000, 1),
            EnactStep::Approve(2000, 0),
            EnactStep::Enact(1000, 0),
            EnactStep::Approve(1000, 1),
            EnactStep::Clear,
        ]
    );
    assert_eq!(
        enactment_plan(&parachains, &registered, &vec![1000, 3000, 2000]),
        vec![EnactStep::Enact(1000, 0), EnactStep::Approve(1000, 1), EnactStep::NotOnboarded(3000)]
    );
    assert_eq!(
        enactment_plan(&parachains, &vec![1000], &vec![2000]),
        vec![EnactStep::Enact(2000, 1), EnactStep::NotOnboarded(2000)]
    );
    assert_eq!(enactment_plan(&parachains, &registered, &vec![]), vec![EnactStep::Clear]);
}
