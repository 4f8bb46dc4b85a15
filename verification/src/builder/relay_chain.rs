//! The relay chain side of the builders: registering parachains in the relay
//! chain's `Paras` storage, collecting the collations that parachains offer
//! and the cores they are enacted on.

use crate::builder::parachain::FudgeParaChain;
use std::collections::BTreeMap;
use vstd::prelude::*;

verus! {

/// Errors of the relay chain builder.
#[derive(Debug)]
pub enum Error {
    CoreBuilder(String),
    Initiator(String),
    ParachainJudgeError(String),
    ParachainMutation,
    ParaLifecyclesMutation,
    PersistedValidationDataRetrieval(String),
    PersistedValidationDataNotFound,
    ValidationCodeHashRetrieval(String),
    ValidationCodeHashNotFound,
    InherentDataProvidersCreation(String),
    InherentDataCreation(String),
    DigestCreation(String),
    CandidatePendingAvailabilityDecoding(String),
    ParachainNotOnboarded,
    ParachainCoreIndexCreation(String),
    ParachainNotFound,
    ParachainInherentDataCreation,
    NextBlockNotFound,
    ParachainCollation(u32, String),
}

/// Storage prefix of `Paras::ParaLifecycles`.
pub struct ParaLifecyclesPrefix;

impl ParaLifecyclesPrefix {
    pub const STORAGE_PREFIX: &'static str = "ParaLifecycles";

    pub fn pallet_prefix() -> (r: &'static str)
        ensures
            r@ == "Paras"@,
    {
        "Paras"
    }
}

/// Storage prefix of `Paras::Parachains`.
pub struct ParachainsPrefix;

impl ParachainsPrefix {
    pub const STORAGE_PREFIX: &'static str = "Parachains";

    pub fn pallet_prefix() -> (r: &'static str)
        ensures
            r@ == "Paras"@,
    {
        "Paras"
    }
}

/// Storage prefix of `Paras::Heads`.
pub struct HeadsPrefix;

impl HeadsPrefix {
    pub const STORAGE_PREFIX: &'static str = "Heads";

    pub fn pallet_prefix() -> (r: &'static str)
        ensures
            r@ == "Paras"@,
    {
        "Paras"
    }
}

/// Storage prefix of `Paras::CurrentCodeHash`.
pub struct CurrentCodeHashPrefix;

impl CurrentCodeHashPrefix {
    pub const STORAGE_PREFIX: &'static str = "CurrentCodeHash";

    pub fn pallet_prefix() -> (r: &'static str)
        ensures
            r@ == "Paras"@,
    {
        "Paras"
    }
}

/// Storage prefix of `Paras::CodeByHash`.
pub struct CodeByHashPrefix;

impl CodeByHashPrefix {
    pub const STORAGE_PREFIX: &'static str = "CodeByHash";

    pub fn pallet_prefix() -> (r: &'static str)
        ensures
            r@ == "Paras"@,
    {
        "Paras"
    }
}

/// Storage prefix of `Paras::CodeByHashRefs`.
pub struct CodeByHashRefsPrefix;

impl CodeByHashRefsPrefix {
    pub const STORAGE_PREFIX: &'static str = "CodeByHashRefs";

    pub fn pallet_prefix() -> (r: &'static str)
        ensures
            r@ == "Paras"@,
    {
        "Paras"
    }
}

/// Storage prefix of `Paras::PastCodeHash`.
pub struct PastCodeHashPrefix;

impl PastCodeHashPrefix {
    pub const STORAGE_PREFIX: &'static str = "PastCodeHash";

    pub fn pallet_prefix() -> (r: &'static str)
        ensures
            r@ == "Paras"@,
    {
        "Paras"
    }
}

/// Storage prefix of `ParaInclusion::PendingAvailability`.
pub struct PendingAvailabilityPrefix;

impl PendingAvailabilityPrefix {
    pub const STORAGE_PREFIX: &'static str = "PendingAvailability";

    pub fn pallet_prefix() -> (r: &'static str)
        ensures
            r@ == "ParaInclusion"@,
    {
        "ParaInclusion"
    }
}

/// Storage prefix of `ParaInclusion::PendingAvailabilityCommitments`.
pub struct PendingAvailabilityCommitmentsPrefix;

impl PendingAvailabilityCommitmentsPrefix {
    pub const STORAGE_PREFIX: &'static str = "PendingAvailabilityCommitments";

    pub fn pallet_prefix() -> (r: &'static str)
        ensures
            r@ == "ParaInclusion"@,
    {
        "ParaInclusion"
    }
}

/// The relay chain's verdict on a parachain's collation.
#[derive(Copy, Clone, PartialEq, Eq, Debug, Structural)]
pub enum CollationJudgement {
    Approved,
    Rejected,
}

/// A validation code hash: the blake2-256 hash of the code.
pub type ValidationCodeHash = [u8; 32];

/// What `polkadot_parachain_primitives::primitives::ValidationCode::hash`
/// returns for the given code bytes.
pub uninterp spec fn validation_code_hash_of(code: Seq<u8>) -> Seq<u8>;

/// Wraps `polkadot_parachain_primitives::primitives::ValidationCode::hash`,
/// the blake2-256 hash of the code; its 32 bytes are returned.
#[verifier::external_body]
pub fn validation_code_hash(code: &[u8]) -> (r: ValidationCodeHash)
    ensures
        r@ == validation_code_hash_of(code@),
{
    let hash = polkadot_parachain_primitives::primitives::ValidationCode(code.to_vec()).hash();
    let mut out = [0u8; 32];
    out.copy_from_slice(hash.as_ref());
    out
}

/// Sorts parachain identifiers in ascending order.
/// Wraps `<[u32]>::sort`: the result is sorted and holds the same identifiers,
/// each as often as before.
#[verifier::external_body]
fn sort_ids(ids: &mut Vec<u32>)
    ensures
        sorted(final(ids)@),
        final(ids)@.to_multiset() == old(ids)@.to_multiset(),
{
    ids.sort();
}

/// The identifiers are in ascending order.
pub open spec fn sorted(s: Seq<u32>) -> bool {
    forall|i: int, j: int| 0 <= i <= j < s.len() ==> s[i] <= s[j]
}

/// The identifiers are in strictly ascending order: sorted with no identifier twice.
pub open spec fn strictly_sorted(s: Seq<u32>) -> bool {
    forall|i: int, j: int| 0 <= i < j < s.len() ==> s[i] < s[j]
}

/// The first position of `id` in `ids`, if it occurs.
pub fn position_of(ids: &Vec<u32>, id: u32) -> (r: Option<usize>)
    ensures
        r is None <==> !ids@.contains(id),
        r matches Some(i) ==> i < ids@.len() && ids@[i as int] == id
            && forall|j: int| 0 <= j < i ==> ids@[j] != id,
{
    let mut i: usize = 0;
    while i < ids.len()
        invariant
            i <= ids.len(),
            forall|j: int| 0 <= j < i ==> ids@[j] != id,
        decreases ids.len() - i,
    {
        if ids[i] == id {
            return Some(i);
        }
        i = i + 1;
    }
    None
}

/// Whether `id` occurs in `ids`.
pub fn contains_id(ids: &Vec<u32>, id: u32) -> (r: bool)
    ensures
        r == ids@.contains(id),
{
    position_of(ids, id).is_some()
}

/// The parachain list after onboarding `id`: unchanged when `id` is already
/// registered, otherwise `id` added and the list sorted.
pub fn onboarded_parachains(parachains: Vec<u32>, id: u32) -> (r: Vec<u32>)
    ensures
        parachains@.contains(id) ==> r@ == parachains@,
        !parachains@.contains(id) ==> sorted(r@) && r@.to_multiset() == parachains@.push(id).to_multiset(),
{
    let mut paras = parachains;
    if !contains_id(&paras, id) {
        paras.push(id);
        sort_ids(&mut paras);
    }
    paras
}

/// The reference count of a validation code after a parachain is onboarded
/// with it: a code nobody referenced gets one reference, otherwise it is kept.
pub fn code_refs_after_onboard(refs: u32) -> (r: u32)
    ensures
        refs == 0 ==> r == 1,
        refs != 0 ==> r == refs,
{
    if refs == 0 {
        1
    } else {
        refs
    }
}

/// The stage of a para's life in the relay chain's `Paras` pallet.
#[derive(Copy, Clone, PartialEq, Eq, Debug, Structural)]
pub enum ParaLifecycle {
    Onboarding,
    Parathread,
    Parachain,
    UpgradingParathread,
    DowngradingParachain,
    OffboardingParathread,
    OffboardingParachain,
}

/// The writes into the relay chain's `Paras` storage that onboard a parachain.
pub struct OnboardPlan {
    /// The parachain the writes are for.
    pub id: u32,
    /// The new value of `Parachains`.
    pub parachains: Vec<u32>,
    /// `PastCodeHash[(id, block)] := hash`, when the parachain had a code before.
    pub past_code_hash: Option<(u32, ValidationCodeHash)>,
    /// When the new code differs from the current one: `CurrentCodeHash[id]`
    /// and `CodeByHash[hash]` are set to it and its references are updated with
    /// `code_refs_after_onboard`.
    pub new_code_hash: Option<ValidationCodeHash>,
    /// The parachain's code.
    pub code: Vec<u8>,
    /// `Heads[id] := head`.
    pub head: Vec<u8>,
    /// `ParaLifecycles[id] := lifecycle`, which is always `Parachain`.
    pub lifecycle: ParaLifecycle,
}

/// Whether two hashes are equal.
fn hashes_equal(a: &ValidationCodeHash, b: &ValidationCodeHash) -> (r: bool)
    ensures
        r == (a@ == b@),
{
    let mut i: usize = 0;
    while i < 32
        invariant
            i <= 32,
            forall|j: int| 0 <= j < i ==> a@[j] == b@[j],
        decreases 32 - i,
    {
        if a[i] != b[i] {
            return false;
        }
        i = i + 1;
    }
    assert(a@ =~= b@);
    true
}

/// The all-zero hash, which stands for "no code yet".
pub open spec fn zero_hash() -> Seq<u8> {
    Seq::new(32, |i: int| 0u8)
}

/// The code hash a parachain counts as having: its current one, or the zero
/// hash when it has none.
pub open spec fn previous_code_hash(current: Option<ValidationCodeHash>) -> Seq<u8> {
    match current {
        Some(h) => h@,
        None => zero_hash(),
    }
}

/// Plans the onboarding of `para` at relay block `current_block`, given the
/// registered parachains and the parachain's current code hash, if any.
pub fn onboard_plan(
    parachains: Vec<u32>,
    current_code_hash: Option<ValidationCodeHash>,
    para: FudgeParaChain,
    current_block: u32,
) -> (r: OnboardPlan)
    ensures
        parachains@.contains(para.id) ==> r.parachains@ == parachains@,
        !parachains@.contains(para.id) ==> sorted(r.parachains@) && r.parachains@.to_multiset()
            == parachains@.push(para.id).to_multiset(),
        current_code_hash is None ==> r.past_code_hash is None,
        current_code_hash matches Some(h) ==> r.past_code_hash == Some((current_block, h)),
        previous_code_hash(current_code_hash) == validation_code_hash_of(para.code@)
            ==> r.new_code_hash is None,
        previous_code_hash(current_code_hash) != validation_code_hash_of(para.code@)
            ==> (r.new_code_hash matches Some(h) && h@ == validation_code_hash_of(para.code@)),
        r.code@ == para.code@,
        r.head@ == para.head@,
        r.id == para.id,
        r.lifecycle == ParaLifecycle::Parachain,
{
    let FudgeParaChain { id, head, code } = para;
    let code_hash = validation_code_hash(code.as_slice());
    let parachains = onboarded_parachains(parachains, id);
    let (past_code_hash, curr_code_hash) = match current_code_hash {
        Some(h) => (Some((current_block, h)), h),
        None => (None, [0u8; 32]),
    };
    assert(curr_code_hash@ == previous_code_hash(current_code_hash)) by {
        if current_code_hash is None {
            assert(curr_code_hash@ =~= zero_hash());
        }
    }
    let new_code_hash = if hashes_equal(&curr_code_hash, &code_hash) {
        None
    } else {
        Some(code_hash)
    };
    OnboardPlan {
        id,
        parachains,
        past_code_hash,
        new_code_hash,
        code,
        head,
        lifecycle: ParaLifecycle::Parachain,
    }
}

/// Onboarding keeps a strictly sorted parachain list strictly sorted, and the
/// list then holds exactly the old identifiers and the onboarded one.
pub proof fn lemma_onboarding_keeps_list_strictly_sorted(old_list: Seq<u32>, new_list: Seq<u32>, id: u32)
    requires
        strictly_sorted(old_list),
        old_list.contains(id) ==> new_list == old_list,
        !old_list.contains(id) ==> sorted(new_list) && new_list.to_multiset() == old_list.push(id).to_multiset(),
    ensures
        strictly_sorted(new_list),
        new_list.contains(id),
        forall|x: u32| new_list.contains(x) <==> (old_list.contains(x) || x == id),
{
    broadcast use vstd::seq_lib::group_to_multiset_ensures;
    if !old_list.contains(id) {
        let pushed = old_list.push(id);
        assert(pushed.no_duplicates()) by {
            assert forall|i: int, j: int| 0 <= i < pushed.len() && 0 <= j < pushed.len() && i != j
                implies pushed[i] != pushed[j] by {
                if i < old_list.len() && j < old_list.len() {
                    if i < j {
                        assert(old_list[i] < old_list[j]);
                    } else {
                        assert(old_list[j] < old_list[i]);
                    }
                } else if i < old_list.len() {
                    assert(old_list.contains(old_list[i]));
                } else if j < old_list.len() {
                    assert(old_list.contains(old_list[j]));
                }
            }
        }
        pushed.lemma_multiset_has_no_duplicates();
        new_list.lemma_multiset_has_no_duplicates_conv();
        assert forall|x: u32| new_list.contains(x) <==> (old_list.contains(x) || x == id) by {
            assert(new_list.contains(x) <==> new_list.to_multiset().count(x) > 0);
            assert(pushed.contains(x) <==> pushed.to_multiset().count(x) > 0);
            if old_list.contains(x) {
                let k = choose|k: int| 0 <= k < old_list.len() && old_list[k] == x;
                assert(pushed[k] == x);
            }
            if pushed.contains(x) {
                let k = choose|k: int| 0 <= k < pushed.len() && pushed[k] == x;
                if k < old_list.len() {
                    assert(old_list[k] == x);
                }
            }
            assert(pushed[old_list.len() as int] == id);
        }
        assert forall|i: int, j: int| 0 <= i < j < new_list.len() implies new_list[i] < new_list[j] by {
            assert(new_list[i] <= new_list[j]);
            assert(new_list[i] != new_list[j]);
        }
    } else {
        assert(new_list.contains(id));
    }
}

/// The part of the relay chain's `Paras` storage that onboarding writes by
/// parachain: the parachain list, heads, current code hashes and lifecycles.
pub struct ParasView {
    pub parachains: Seq<u32>,
    pub heads: Map<u32, Seq<u8>>,
    pub current_code_hash: Map<u32, Seq<u8>>,
    pub lifecycles: Map<u32, ParaLifecycle>,
}

/// The code hash the parachain `id` counts as having in `code_hashes`: its
/// current one, or the zero hash when it has none.
pub open spec fn stored_code_hash(code_hashes: Map<u32, Seq<u8>>, id: u32) -> Seq<u8> {
    if code_hashes.contains_key(id) {
        code_hashes[id]
    } else {
        zero_hash()
    }
}

/// What onboarding parachain `id` with `head` and a code of hash `code_hash`
/// writes: `id` joins the parachain list (which stays strictly sorted and
/// otherwise unchanged), its head is set, its lifecycle becomes `Parachain`,
/// and its current code hash becomes `code_hash` unless it already counts as
/// having that hash.
pub open spec fn onboarding_writes(old: ParasView, new: ParasView, id: u32, head: Seq<u8>, code_hash: Seq<u8>) -> bool {
    &&& strictly_sorted(new.parachains)
    &&& old.parachains.contains(id) ==> new.parachains == old.parachains
    &&& forall|x: u32| #[trigger] new.parachains.contains(x) <==> (old.parachains.contains(x) || x == id)
    &&& new.heads == old.heads.insert(id, head)
    &&& new.lifecycles == old.lifecycles.insert(id, ParaLifecycle::Parachain)
    &&& stored_code_hash(old.current_code_hash, id) == code_hash ==> new.current_code_hash
        == old.current_code_hash
    &&& stored_code_hash(old.current_code_hash, id) != code_hash ==> new.current_code_hash
        == old.current_code_hash.insert(id, code_hash)
}

/// After onboarding, the parachain is listed, has the given head and the
/// lifecycle `Parachain`, and its current code hash is the hash of its code;
/// the one exception is a parachain without code whose code hashes to all
/// zeros, which keeps no current code hash.
pub proof fn lemma_onboarded_parachain_is_registered(
    old: ParasView,
    new: ParasView,
    id: u32,
    head: Seq<u8>,
    code_hash: Seq<u8>,
)
    requires
        onboarding_writes(old, new, id, head, code_hash),
    ensures
        new.parachains.contains(id),
        new.heads.contains_key(id) && new.heads[id] == head,
        new.lifecycles.contains_key(id) && new.lifecycles[id] == ParaLifecycle::Parachain,
        old.current_code_hash.contains_key(id) || code_hash != zero_hash() ==> new.current_code_hash.contains_key(
            id,
        ) && new.current_code_hash[id] == code_hash,
{
    assert(new.parachains.contains(id));
}

/// The parachain-keyed part of the relay chain's `Paras` storage. The
/// parachain list is kept strictly sorted.
pub struct ParasStorage {
    parachains: Vec<u32>,
    heads: BTreeMap<u32, Vec<u8>>,
    current_code_hash: BTreeMap<u32, ValidationCodeHash>,
    lifecycles: BTreeMap<u32, ParaLifecycle>,
}

impl View for ParasStorage {
    type V = ParasView;

    closed spec fn view(&self) -> ParasView {
        ParasView {
            parachains: self.parachains@,
            heads: self.heads@.map_values(|v: Vec<u8>| v@),
            current_code_hash: self.current_code_hash@.map_values(|h: ValidationCodeHash| h@),
            lifecycles: self.lifecycles@,
        }
    }
}

impl ParasStorage {
    /// The parachain list holds every parachain once, in ascending order.
    #[verifier::type_invariant]
    closed spec fn sorted_list(&self) -> bool {
        strictly_sorted(self.parachains@)
    }

    /// Storage with no parachain.
    pub fn new() -> (r: Self)
        ensures
            r@.parachains == Seq::<u32>::empty(),
            r@.heads == Map::<u32, Seq<u8>>::empty(),
            r@.current_code_hash == Map::<u32, Seq<u8>>::empty(),
            r@.lifecycles == Map::<u32, ParaLifecycle>::empty(),
    {
        let r = ParasStorage {
            parachains: Vec::new(),
            heads: BTreeMap::new(),
            current_code_hash: BTreeMap::new(),
            lifecycles: BTreeMap::new(),
        };
        assert(r@.heads =~= Map::<u32, Seq<u8>>::empty());
        assert(r@.current_code_hash =~= Map::<u32, Seq<u8>>::empty());
        r
    }

    /// The registered parachains, in ascending order.
    pub fn parachains(&self) -> (r: &Vec<u32>)
        ensures
            r@ == self@.parachains,
            strictly_sorted(r@),
    {
        proof { use_type_invariant(self); }
        &self.parachains
    }

    /// The head of parachain `id`, if one is stored.
    pub fn head(&self, id: u32) -> (r: Option<&Vec<u8>>)
        ensures
            r is None <==> !self@.heads.contains_key(id),
            r matches Some(h) ==> h@ == self@.heads[id],
    {
        self.heads.get(&id)
    }

    /// The current code hash of parachain `id`, if one is stored.
    pub fn current_code_hash(&self, id: u32) -> (r: Option<ValidationCodeHash>)
        ensures
            r is None <==> !self@.current_code_hash.contains_key(id),
            r matches Some(h) ==> h@ == self@.current_code_hash[id],
    {
        match self.current_code_hash.get(&id) {
            Some(h) => Some(*h),
            None => None,
        }
    }

    /// The lifecycle of parachain `id`, if one is stored.
    pub fn lifecycle(&self, id: u32) -> (r: Option<ParaLifecycle>)
        ensures
            r is None <==> !self@.lifecycles.contains_key(id),
            r matches Some(l) ==> l == self@.lifecycles[id],
    {
        match self.lifecycles.get(&id) {
            Some(l) => Some(*l),
            None => None,
        }
    }

    /// Onboards `para` at relay block `current_block`: the writes of
    /// `onboard_plan` are made here, and the plan is handed back for the
    /// writes keyed by code hash (`PastCodeHash`, `CodeByHash`, its references).
    pub fn onboard(&mut self, para: FudgeParaChain, current_block: u32) -> (r: OnboardPlan)
        ensures
            onboarding_writes(old(self)@, final(self)@, para.id, para.head@, validation_code_hash_of(para.code@)),
            final(self)@.parachains == r.parachains@,
            r.id == para.id,
            r.code@ == para.code@,
            r.head@ == para.head@,
            r.lifecycle == ParaLifecycle::Parachain,
            !old(self)@.current_code_hash.contains_key(para.id) ==> r.past_code_hash is None,
            old(self)@.current_code_hash.contains_key(para.id) ==> (r.past_code_hash matches Some((b, h))
                && b == current_block && h@ == old(self)@.current_code_hash[para.id]),
            stored_code_hash(old(self)@.current_code_hash, para.id) == validation_code_hash_of(para.code@)
                ==> r.new_code_hash is None,
            stored_code_hash(old(self)@.current_code_hash, para.id) != validation_code_hash_of(para.code@)
                ==> (r.new_code_hash matches Some(h) && h@ == validation_code_hash_of(para.code@)),
    {
        proof { use_type_invariant(&*self); }
        let id = para.id;
        let current = self.current_code_hash(id);
        let ghost code_hash = validation_code_hash_of(para.code@);
        let ghost head = para.head@;
        let ghost old_view = self@;
        assert(previous_code_hash(current) == stored_code_hash(old_view.current_code_hash, id));
        let plan = onboard_plan(self.parachains.clone(), current, para, current_block);
        proof {
            lemma_onboarding_keeps_list_strictly_sorted(old_view.parachains, plan.parachains@, id);
        }
        let mut parachains = plan.parachains.clone();
        assert(parachains@ =~= plan.parachains@);
        std::mem::swap(&mut parachains, &mut self.parachains);
        let mut heads: BTreeMap<u32, Vec<u8>> = BTreeMap::new();
        std::mem::swap(&mut heads, &mut self.heads);
        let ghost old_heads = heads@;
        let head_copy = plan.head.clone();
        assert(head_copy@ =~= plan.head@);
        heads.insert(id, head_copy);
        assert(heads@.map_values(|v: Vec<u8>| v@) =~= old_heads.map_values(|v: Vec<u8>| v@).insert(id, head));
        self.heads = heads;
        let mut lifecycles: BTreeMap<u32, ParaLifecycle> = BTreeMap::new();
        std::mem::swap(&mut lifecycles, &mut self.lifecycles);
        lifecycles.insert(id, ParaLifecycle::Parachain);
        self.lifecycles = lifecycles;
        match plan.new_code_hash {
            Some(h) => {
                let mut hashes: BTreeMap<u32, ValidationCodeHash> = BTreeMap::new();
                std::mem::swap(&mut hashes, &mut self.current_code_hash);
                let ghost old_hashes = hashes@;
                hashes.insert(id, h);
                assert(hashes@.map_values(|x: ValidationCodeHash| x@) =~= old_hashes.map_values(
                    |x: ValidationCodeHash| x@,
                ).insert(id, code_hash));
                self.current_code_hash = hashes;
            },
            None => {},
        }
        plan
    }
}

/// The collators of the parachains onboarded through a relay chain builder,
/// in the order they were onboarded.
pub struct Collators<C> {
    entries: Vec<(u32, C)>,
}

/// The parachain identifiers of a sequence of collator entries.
pub open spec fn collator_ids<C>(s: Seq<(u32, C)>) -> Seq<u32> {
    s.map_values(|e: (u32, C)| e.0)
}

impl<C> Collators<C> {
    /// The registered parachains with their collators, oldest first.
    pub closed spec fn registered(&self) -> Seq<(u32, C)> {
        self.entries@
    }

    /// No collator registered.
    pub fn new() -> (r: Self)
        ensures
            r.registered() == Seq::<(u32, C)>::empty(),
    {
        Collators { entries: Vec::new() }
    }

    /// Registers `collator` for parachain `id`; a parachain onboarded again
    /// is registered again.
    pub fn register(&mut self, id: u32, collator: C)
        ensures
            final(self).registered() == old(self).registered().push((id, collator)),
    {
        self.entries.push((id, collator));
    }

    /// The identifiers of the registered parachains, oldest first.
    pub fn ids(&self) -> (r: Vec<u32>)
        ensures
            r@ == collator_ids(self.registered()),
    {
        let mut ids: Vec<u32> = Vec::new();
        let mut i: usize = 0;
        while i < self.entries.len()
            invariant
                i <= self.entries@.len(),
                ids@ == collator_ids(self.entries@.take(i as int)),
            decreases self.entries@.len() - i,
        {
            ids.push(self.entries[i].0);
            assert(collator_ids(self.entries@.take(i + 1)) =~= collator_ids(self.entries@.take(i as int)).push(
                self.entries@[i as int].0,
            ));
            i = i + 1;
        }
        assert(self.entries@.take(i as int) =~= self.entries@);
        ids
    }

    /// The collator registered first for parachain `id`.
    pub fn collator(&self, id: u32) -> (r: Result<&C, Error>)
        ensures
            r is Err <==> !collator_ids(self.registered()).contains(id),
            r matches Err(e) ==> e is ParachainNotOnboarded,
            r matches Ok(c) ==> exists|i: int| 0 <= i < self.registered().len() && self.registered()[i].0 == id
                && *c == self.registered()[i].1 && forall|j: int| 0 <= j < i ==> self.registered()[j].0 != id,
    {
        let mut i: usize = 0;
        while i < self.entries.len()
            invariant
                i <= self.entries@.len(),
                forall|j: int| 0 <= j < i ==> self.entries@[j].0 != id,
            decreases self.entries@.len() - i,
        {
            if self.entries[i].0 == id {
                assert(collator_ids(self.entries@)[i as int] == id);
                assert(self.registered()[i as int].0 == id);
                return Ok(&self.entries[i].1);
            }
            i = i + 1;
        }
        assert forall|j: int| 0 <= j < collator_ids(self.entries@).len() implies collator_ids(self.entries@)[j]
            != id by {}
        Err(Error::ParachainNotOnboarded)
    }
}

/// Onboards `para` in the relay chain's storage at block `current_block` and
/// registers its collator with the builder, even when the parachain was
/// onboarded before. The returned plan holds the writes keyed by code hash:
/// the previous code hash recorded under `current_block`, and, when the code
/// changes, its new hash under which the code is stored (with its references
/// counted by `code_refs_after_onboard`).
pub fn onboard_para<C>(
    storage: &mut ParasStorage,
    collators: &mut Collators<C>,
    para: FudgeParaChain,
    collator: C,
    current_block: u32,
) -> (r: OnboardPlan)
    ensures
        onboarding_writes(old(storage)@, final(storage)@, para.id, para.head@, validation_code_hash_of(para.code@)),
        final(collators).registered() == old(collators).registered().push((para.id, collator)),
        final(storage)@.parachains == r.parachains@,
        r.id == para.id,
        r.code@ == para.code@,
        r.head@ == para.head@,
        r.lifecycle == ParaLifecycle::Parachain,
        !old(storage)@.current_code_hash.contains_key(para.id) ==> r.past_code_hash is None,
        old(storage)@.current_code_hash.contains_key(para.id) ==> (r.past_code_hash matches Some((b, h))
            && b == current_block && h@ == old(storage)@.current_code_hash[para.id]),
        stored_code_hash(old(storage)@.current_code_hash, para.id) == validation_code_hash_of(para.code@)
            ==> r.new_code_hash is None,
        stored_code_hash(old(storage)@.current_code_hash, para.id) != validation_code_hash_of(para.code@)
            ==> (r.new_code_hash matches Some(h) && h@ == validation_code_hash_of(para.code@)),
{
    let id = para.id;
    let plan = storage.onboard(para, current_block);
    collators.register(id, collator);
    plan
}

/// The first position of `id` in `s`, if it occurs.
pub open spec fn first_position(s: Seq<u32>, id: u32) -> Option<nat>
    decreases s.len(),
{
    if s.len() == 0 {
        None
    } else if s[0] == id {
        Some(0)
    } else {
        match first_position(s.drop_first(), id) {
            Some(k) => Some(k + 1),
            None => None,
        }
    }
}

/// `first_position` is the position that a search from the front finds.
pub proof fn lemma_first_position(s: Seq<u32>, id: u32, found: Option<usize>)
    requires
        found is None ==> !s.contains(id),
        found matches Some(i) ==> i < s.len() && s[i as int] == id && forall|j: int| 0 <= j < i ==> s[j] != id,
    ensures
        found is None ==> first_position(s, id) is None,
        found matches Some(i) ==> first_position(s, id) == Some(i as nat),
    decreases s.len(),
{
    if s.len() > 0 && s[0] != id {
        let rest = s.drop_first();
        match found {
            Some(i) => {
                assert(forall|j: int| 0 <= j < i - 1 ==> rest[j] == s[j + 1]);
                lemma_first_position(rest, id, Some((i - 1) as usize));
            },
            None => {
                assert forall|j: int| 0 <= j < rest.len() implies rest[j] != id by {
                    assert(s[j + 1] == rest[j]);
                }
                lemma_first_position(rest, id, None);
            },
        }
    }
}

/// The core a collation of parachain `id` is enacted on: the position of `id`
/// in the relay chain's parachain list.
pub fn core_index_of(parachains: &Vec<u32>, id: u32) -> (r: Result<u32, Error>)
    ensures
        !parachains@.contains(id) ==> r matches Err(Error::ParachainNotOnboarded),
        r matches Ok(c) ==> c < parachains@.len() && parachains@[c as int] == id && forall|j: int|
            0 <= j < c ==> parachains@[j] != id,
        r matches Err(Error::ParachainCoreIndexCreation(_)) ==> parachains@.contains(id),
        parachains@.contains(id) ==> (r is Ok <==> exists|i: int| 0 <= i <= u32::MAX && i < parachains@.len() && parachains@[i] == id),
        r is Ok || r matches Err(Error::ParachainNotOnboarded) || r matches Err(Error::ParachainCoreIndexCreation(_)),
{
    match position_of(parachains, id) {
        None => Err(Error::ParachainNotOnboarded),
        Some(i) => {
            if i <= u32::MAX as usize {
                Ok(i as u32)
            } else {
                Err(Error::ParachainCoreIndexCreation(
                    "out of range integral type conversion attempted".to_string(),
                ))
            }
        },
    }
}

/// The position of parachain `id` among the parachains registered with the
/// builder, whose collator judges its collations.
pub fn collator_index(registered: &Vec<u32>, id: u32) -> (r: Result<usize, Error>)
    ensures
        r is Err <==> !registered@.contains(id),
        r matches Err(e) ==> e is ParachainNotOnboarded,
        r matches Ok(i) ==> i < registered@.len() && registered@[i as int] == id
            && forall|j: int| 0 <= j < i ==> registered@[j] != id,
{
    match position_of(registered, id) {
        Some(i) => Ok(i),
        None => Err(Error::ParachainNotOnboarded),
    }
}

/// What waiting for a relay chain block does on the next import notification.
#[derive(Copy, Clone, PartialEq, Eq, Debug, Structural)]
pub enum WaitStep {
    /// The awaited block was imported.
    Done,
    /// Another block was imported: keep waiting.
    Continue,
    /// The notification stream ended before the block arrived.
    ListenerClosed,
}

/// The step after an import notification for `block` (`None` when the stream
/// has ended) while waiting for the block with hash `awaited`.
pub fn wait_step(awaited: &[u8; 32], block: Option<&[u8; 32]>) -> (r: WaitStep)
    ensures
        block is None ==> r == WaitStep::ListenerClosed,
        block matches Some(h) ==> (r == WaitStep::Done <==> h@ == awaited@),
        block matches Some(h) ==> (r == WaitStep::Continue <==> h@ != awaited@),
{
    match block {
        None => WaitStep::ListenerClosed,
        Some(h) => if hashes_equal(h, awaited) {
            WaitStep::Done
        } else {
            WaitStep::Continue
        },
    }
}

/// The parachain identifiers of a sequence of collations.
pub open spec fn collation_ids<C, H>(s: Seq<(u32, C, H)>) -> Seq<u32> {
    s.map_values(|t: (u32, C, H)| t.0)
}

/// The collations the relay chain has collected and not yet enacted, each with
/// the relay chain header it was built on; at most one per parachain.
pub struct CollationQueue<C, H> {
    collations: Vec<(u32, C, H)>,
}

impl<C, H> CollationQueue<C, H> {
    /// The collected collations, in the order they were collected.
    pub closed spec fn collected(&self) -> Seq<(u32, C, H)> {
        self.collations@
    }

    /// No parachain has two collations in the queue.
    #[verifier::type_invariant]
    closed spec fn one_per_parachain(&self) -> bool {
        collation_ids(self.collations@).no_duplicates()
    }

    /// An empty queue.
    pub fn new() -> (r: Self)
        ensures
            r.collected() == Seq::<(u32, C, H)>::empty(),
            collation_ids(r.collected()).no_duplicates(),
    {
        let r = CollationQueue { collations: Vec::new() };
        assert(collation_ids(r.collations@) =~= Seq::<u32>::empty());
        r
    }

    /// Whether a collation of parachain `id` is queued.
    pub fn has_collation(&self, id: u32) -> (r: bool)
        ensures
            r == collation_ids(self.collected()).contains(id),
    {
        let mut i: usize = 0;
        while i < self.collations.len()
            invariant
                i <= self.collations@.len(),
                forall|j: int| 0 <= j < i ==> self.collations@[j].0 != id,
            decreases self.collations@.len() - i,
        {
            if self.collations[i].0 == id {
                assert(collation_ids(self.collations@)[i as int] == id);
                return true;
            }
            i = i + 1;
        }
        assert forall|j: int| 0 <= j < collation_ids(self.collations@).len() implies collation_ids(
            self.collations@,
        )[j] != id by {}
        false
    }

    /// Collects what parachain `id` offers on top of `parent_head`: a collation
    /// is queued unless that parachain already has one queued.
    pub fn collect(&mut self, id: u32, collation: Option<C>, parent_head: H)
        ensures
            (collation is None || collation_ids(old(self).collected()).contains(id))
                ==> final(self).collected() == old(self).collected(),
            collation matches Some(c) ==> (!collation_ids(old(self).collected()).contains(id)
                ==> final(self).collected() == old(self).collected().push((id, c, parent_head))),
            collation_ids(final(self).collected()).no_duplicates(),
    {
        proof { use_type_invariant(&*self); }
        if let Some(c) = collation {
            if !self.has_collation(id) {
                let mut v: Vec<(u32, C, H)> = Vec::new();
                std::mem::swap(&mut v, &mut self.collations);
                let ghost old_v = v@;
                v.push((id, c, parent_head));
                proof {
                    let ids = collation_ids(v@);
                    assert(ids =~= collation_ids(old_v).push(id));
                    assert forall|i: int, j: int| 0 <= i < ids.len() && 0 <= j < ids.len() && i != j
                        implies ids[i] != ids[j] by {
                        if i == old_v.len() {
                            assert(collation_ids(old_v).contains(ids[j]));
                        } else if j == old_v.len() {
                            assert(collation_ids(old_v).contains(ids[i]));
                        }
                    }
                }
                self.collations = v;
            }
        }
        proof { use_type_invariant(&*self); }
    }

    /// The queued collations.
    pub fn collations(&self) -> (r: &Vec<(u32, C, H)>)
        ensures
            r@ == self.collected(),
            collation_ids(r@).no_duplicates(),
    {
        proof { use_type_invariant(self); }
        &self.collations
    }

    /// Empties the queue once every collation has been enacted.
    pub fn clear(&mut self)
        ensures
            final(self).collected() == Seq::<(u32, C, H)>::empty(),
    {
        let v: Vec<(u32, C, H)> = Vec::new();
        assert(collation_ids(v@) =~= Seq::<u32>::empty());
        self.collations = v;
    }
}

/// One step of enacting the collected collations.
#[derive(Copy, Clone, PartialEq, Eq, Debug, Structural)]
pub enum EnactStep {
    /// Store the collation of the parachain as pending availability on this
    /// core and enact it.
    Enact(u32, u32),
    /// Tell the collator at this position among the builder's parachains that
    /// its collation was approved.
    Approve(u32, usize),
    /// The parachain is not onboarded: enacting stops with `ParachainNotOnboarded`.
    NotOnboarded(u32),
    /// The parachain's position does not fit a core index: enacting stops
    /// with `ParachainCoreIndexCreation`.
    CoreIndexOverflow(u32),
    /// Every collation was enacted: the queue is emptied.
    Clear,
}

/// The steps that enact collations of the parachains `ids`, in order, given
/// the relay chain's parachain list and the builder's parachains; the steps
/// end at the first parachain that cannot be enacted.
pub open spec fn enactment(parachains: Seq<u32>, registered: Seq<u32>, ids: Seq<u32>) -> Seq<EnactStep>
    decreases ids.len(),
{
    if ids.len() == 0 {
        seq![EnactStep::Clear]
    } else {
        let id = ids[0];
        match first_position(parachains, id) {
            None => seq![EnactStep::NotOnboarded(id)],
            Some(core) => if core > u32::MAX {
                seq![EnactStep::CoreIndexOverflow(id)]
            } else {
                match first_position(registered, id) {
                    None => seq![EnactStep::Enact(id, core as u32), EnactStep::NotOnboarded(id)],
                    Some(k) => seq![EnactStep::Enact(id, core as u32), EnactStep::Approve(id, k as usize)]
                        + enactment(parachains, registered, ids.drop_first()),
                }
            },
        }
    }
}

/// Plans the enactment of collations of the parachains `ids` (in queue
/// order): each is enacted on the core of its position in the relay chain's
/// list, then its collator approves it; the first parachain that is not
/// onboarded, or whose core index does not fit, ends the plan; otherwise the
/// queue is cleared at the end.
pub fn enactment_plan(parachains: &Vec<u32>, registered: &Vec<u32>, ids: &Vec<u32>) -> (r: Vec<EnactStep>)
    ensures
        r@ == enactment(parachains@, registered@, ids@),
{
    let mut steps: Vec<EnactStep> = Vec::new();
    let mut i: usize = 0;
    assert(ids@.skip(0) =~= ids@);
    assert(steps@ + enactment(parachains@, registered@, ids@) =~= enactment(parachains@, registered@, ids@));
    while i < ids.len()
        invariant
            i <= ids@.len(),
            steps@ + enactment(parachains@, registered@, ids@.skip(i as int)) == enactment(
                parachains@,
                registered@,
                ids@,
            ),
        decreases ids@.len() - i,
    {
        let id = ids[i];
        let ghost rest = ids@.skip(i as int);
        assert(rest[0] == id);
        assert(rest.drop_first() =~= ids@.skip(i + 1));
        let core = position_of(parachains, id);
        proof { lemma_first_position(parachains@, id, core); }
        match core {
            None => {
                steps.push(EnactStep::NotOnboarded(id));
                return steps;
            },
            Some(c) => {
                if c > u32::MAX as usize {
                    steps.push(EnactStep::CoreIndexOverflow(id));
                    return steps;
                }
                let k = position_of(registered, id);
                proof { lemma_first_position(registered@, id, k); }
                let ghost before = steps@;
                steps.push(EnactStep::Enact(id, c as u32));
                match k {
                    None => {
                        steps.push(EnactStep::NotOnboarded(id));
                        return steps;
                    },
                    Some(k) => {
                        steps.push(EnactStep::Approve(id, k));
                        assert(enactment(parachains@, registered@, rest) == seq![
                            EnactStep::Enact(id, c as u32),
                            EnactStep::Approve(id, k),
                        ] + enactment(parachains@, registered@, ids@.skip(i + 1)));
                        assert(steps@ + enactment(parachains@, registered@, ids@.skip(i + 1)) =~= before
                            + enactment(parachains@, registered@, rest));
                    },
                }
            },
        }
        i = i + 1;
    }
    assert(ids@.skip(i as int) =~= Seq::<u32>::empty());
    steps.push(EnactStep::Clear);
    steps
}

} // verus!
