//! The pseudo-genesis storage a chain is started from: top-level storage
//! entries, key to value, where an entry inserted later replaces an earlier one
//! under the same key.

use vstd::prelude::*;

verus! {

/// The bytes of `b":code"`, the key the runtime code is stored under.
pub open spec fn code_key_spec() -> Seq<u8> {
    seq![58u8, 99u8, 111u8, 100u8, 101u8]
}

/// The key the runtime code is stored under.
/// Wraps `sp_core::storage::well_known_keys::CODE`, which is `b":code"`.
#[verifier::external_body]
fn code_key() -> (r: Vec<u8>)
    ensures
        r@ == code_key_spec(),
{
    sp_core::storage::well_known_keys::CODE.to_vec()
}

/// The storage `m` with the entries of `s` written into it in order.
pub open spec fn with_entries(m: Map<Seq<u8>, Seq<u8>>, s: Seq<(Seq<u8>, Seq<u8>)>) -> Map<Seq<u8>, Seq<u8>>
    decreases s.len(),
{
    if s.len() == 0 {
        m
    } else {
        with_entries(m, s.drop_last()).insert(s.last().0, s.last().1)
    }
}

/// The entries of `s` whose key is not `k`, in order.
pub open spec fn without_key(s: Seq<(Seq<u8>, Seq<u8>)>, k: Seq<u8>) -> Seq<(Seq<u8>, Seq<u8>)>
    decreases s.len(),
{
    if s.len() == 0 {
        s
    } else if s.last().0 == k {
        without_key(s.drop_last(), k)
    } else {
        without_key(s.drop_last(), k).push(s.last())
    }
}

/// Dropping the entries under `k` drops `k` from the storage they make and
/// leaves every other key as it was.
proof fn lemma_without_key(s: Seq<(Seq<u8>, Seq<u8>)>, k: Seq<u8>)
    ensures
        with_entries(Map::empty(), without_key(s, k)) == with_entries(Map::empty(), s).remove(k),
    decreases s.len(),
{
    if s.len() > 0 {
        lemma_without_key(s.drop_last(), k);
        if s.last().0 != k {
            let w = without_key(s, k);
            assert(w.drop_last() =~= without_key(s.drop_last(), k));
        }
    } else {
        assert(Map::<Seq<u8>, Seq<u8>>::empty().remove(k) =~= Map::<Seq<u8>, Seq<u8>>::empty());
    }
    assert(with_entries(Map::empty(), without_key(s, k)) =~= with_entries(Map::empty(), s).remove(k));
}

/// The view of stored entries: key and value bytes.
pub open spec fn entry_views(s: Seq<(Vec<u8>, Vec<u8>)>) -> Seq<(Seq<u8>, Seq<u8>)> {
    s.map_values(|e: (Vec<u8>, Vec<u8>)| (e.0@, e.1@))
}

/// Whether two byte strings are equal.
fn bytes_equal(a: &Vec<u8>, b: &Vec<u8>) -> (r: bool)
    ensures
        r == (a@ == b@),
{
    if a.len() != b.len() {
        return false;
    }
    let mut i: usize = 0;
    while i < a.len()
        invariant
            i <= a@.len(),
            a@.len() == b@.len(),
            forall|j: int| 0 <= j < i ==> a@[j] == b@[j],
        decreases a@.len() - i,
    {
        if a[i] != b[i] {
            return false;
        }
        i = i + 1;
    }
    assert(a@ =~= b@);
    true
}

/// A copy of `b`.
fn copy_bytes(b: &[u8]) -> (r: Vec<u8>)
    ensures
        r@ == b@,
{
    let mut r: Vec<u8> = Vec::new();
    let mut i: usize = 0;
    while i < b.len()
        invariant
            i <= b@.len(),
            r@ == b@.take(i as int),
        decreases b@.len() - i,
    {
        r.push(b[i]);
        assert(b@.take(i + 1) =~= b@.take(i as int).push(b@[i as int]));
        i = i + 1;
    }
    assert(b@.take(i as int) =~= b@);
    r
}

/// A chain's pseudo-genesis top-level storage.
pub struct StateProvider {
    entries: Vec<(Vec<u8>, Vec<u8>)>,
}

impl StateProvider {
    /// The storage, key to value.
    pub closed spec fn top(&self) -> Map<Seq<u8>, Seq<u8>> {
        with_entries(Map::empty(), entry_views(self.entries@))
    }

    /// Empty storage.
    pub fn empty() -> (r: Self)
        ensures
            r.top() == Map::<Seq<u8>, Seq<u8>>::empty(),
    {
        let r = StateProvider { entries: Vec::new() };
        assert(entry_views(r.entries@) =~= Seq::<(Seq<u8>, Seq<u8>)>::empty());
        r
    }

    /// Storage that holds only `code`, under the `:code` key.
    pub fn new(code: &[u8]) -> (r: Self)
        ensures
            r.top() == Map::<Seq<u8>, Seq<u8>>::empty().insert(code_key_spec(), code@),
    {
        let mut r = StateProvider::empty();
        r.insert_entry(code_key(), copy_bytes(code));
        r
    }

    /// Writes `value` under `key`, replacing what was stored there.
    pub fn insert_entry(&mut self, key: Vec<u8>, value: Vec<u8>)
        ensures
            final(self).top() == old(self).top().insert(key@, value@),
    {
        let ghost s = entry_views(self.entries@);
        let mut rest: Vec<(Vec<u8>, Vec<u8>)> = Vec::new();
        std::mem::swap(&mut rest, &mut self.entries);
        let mut kept: Vec<(Vec<u8>, Vec<u8>)> = Vec::new();
        let ghost mut i: int = 0;
        assert(s.take(0) =~= Seq::<(Seq<u8>, Seq<u8>)>::empty());
        assert(entry_views(rest@) =~= s.skip(0));
        assert(entry_views(kept@) =~= Seq::<(Seq<u8>, Seq<u8>)>::empty());
        while rest.len() > 0
            invariant
                0 <= i <= s.len(),
                entry_views(rest@) == s.skip(i),
                entry_views(kept@) == without_key(s.take(i), key@),
            decreases rest@.len(),
        {
            let ghost before = rest@;
            let e = rest.remove(0);
            assert(rest@ == before.remove(0));
            assert(entry_views(before).len() == before.len());
            assert(i < s.len());
            assert(entry_views(before)[0] == (e.0@, e.1@));
            assert(s.skip(i)[0] == s[i]);
            assert(s[i] == (e.0@, e.1@));
            assert forall|j: int| 0 <= j < entry_views(rest@).len() implies entry_views(rest@)[j] == s.skip(
                i + 1,
            )[j] by {
                assert(rest@[j] == before[j + 1]);
                assert(entry_views(before)[j + 1] == s.skip(i)[j + 1]);
            }
            assert(entry_views(rest@) =~= s.skip(i + 1));
            assert(s.take(i + 1).drop_last() =~= s.take(i));
            assert(s.take(i + 1).last() == s[i]);
            if !bytes_equal(&e.0, &key) {
                let ghost kv = kept@;
                kept.push(e);
                assert(entry_views(kept@) =~= entry_views(kv).push(s[i]));
            }
            proof { i = i + 1; }
        }
        assert(s.take(i) =~= s);
        proof { lemma_without_key(s, key@); }
        let ghost kv = kept@;
        kept.push((key, value));
        assert(entry_views(kept@) =~= entry_views(kv).push((key@, value@)));
        assert(entry_views(kept@).drop_last() =~= without_key(s, key@));
        self.entries = kept;
        assert(self.top() =~= with_entries(Map::empty(), s).remove(key@).insert(key@, value@));
        assert(with_entries(Map::empty(), s).remove(key@).insert(key@, value@) =~= old(self).top().insert(
            key@,
            value@,
        ));
    }

    /// Writes the entries of another storage, in order, over this one.
    pub fn insert_storage(&mut self, top: Vec<(Vec<u8>, Vec<u8>)>) -> (r: &mut Self)
        ensures
            r.top() == with_entries(old(self).top(), entry_views(top@)),
            *final(self) == *final(r),
    {
        let ghost t = entry_views(top@);
        let mut rest = top;
        let ghost mut i: int = 0;
        assert(t.take(0) =~= Seq::<(Seq<u8>, Seq<u8>)>::empty());
        assert(entry_views(rest@) =~= t.skip(0));
        while rest.len() > 0
            invariant
                0 <= i <= t.len(),
                entry_views(rest@) == t.skip(i),
                self.top() == with_entries(old(self).top(), t.take(i)),
            decreases rest@.len(),
        {
            let ghost before = rest@;
            let e = rest.remove(0);
            assert(rest@ == before.remove(0));
            assert(entry_views(before).len() == before.len());
            assert(i < t.len());
            assert(entry_views(before)[0] == (e.0@, e.1@));
            assert(t.skip(i)[0] == t[i]);
            assert(t[i] == (e.0@, e.1@));
            assert forall|j: int| 0 <= j < entry_views(rest@).len() implies entry_views(rest@)[j] == t.skip(
                i + 1,
            )[j] by {
                assert(rest@[j] == before[j + 1]);
                assert(entry_views(before)[j + 1] == t.skip(i)[j + 1]);
            }
            assert(entry_views(rest@) =~= t.skip(i + 1));
            assert(t.take(i + 1).drop_last() =~= t.take(i));
            assert(t.take(i + 1).last() == t[i]);
            self.insert_entry(e.0, e.1);
            proof { i = i + 1; }
        }
        assert(t.take(i) =~= t);
        self
    }

    /// Storage made of the entries of another storage, written in order.
    pub fn from_storage(top: Vec<(Vec<u8>, Vec<u8>)>) -> (r: Self)
        ensures
            r.top() == with_entries(Map::empty(), entry_views(top@)),
    {
        let mut r = StateProvider::empty();
        r.insert_storage(top);
        r
    }

    /// The stored entries; writing them in order into empty storage gives
    /// `top()`.
    pub fn entries(&self) -> (r: &Vec<(Vec<u8>, Vec<u8>)>)
        ensures
            with_entries(Map::empty(), entry_views(r@)) == self.top(),
    {
        &self.entries
    }
}

} // verus!
