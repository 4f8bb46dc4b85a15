//! The BABE pre-digest announces the slot filed in the block's inherent data,
//! as a secondary plain pre-digest of authority `0`.

use crate::digest::Error;
use crate::inherent::data::{encode_u64, get_u64, inherent_entries, le_value, lemma_encode_u64_round_trip};
use std::marker::PhantomData;
use vstd::prelude::*;

verus! {

/// The bytes of `b"babeslot"`.
pub open spec fn babe_identifier_spec() -> Seq<u8> {
    seq![98u8, 97u8, 98u8, 101u8, 115u8, 108u8, 111u8, 116u8]
}

/// The identifier of the BABE slot inherent.
/// Wraps `sp_consensus_babe::inherents::INHERENT_IDENTIFIER`, which is `*b"babeslot"`.
#[verifier::external_body]
fn babe_identifier() -> (r: [u8; 8])
    ensures
        r@ == babe_identifier_spec(),
{
    sp_consensus_babe::inherents::INHERENT_IDENTIFIER
}

/// The BABE pre-digest of blocks of type `B`.
pub struct Digest<B> {
    _phantom: PhantomData<B>,
}

/// What reading the BABE slot filed in `entries` gives.
pub open spec fn babe_slot_of(entries: Map<Seq<u8>, Seq<u8>>) -> Result<u64, Error> {
    let id = babe_identifier_spec();
    if !entries.contains_key(id) {
        Err(Error::BabeInherentDataNotFound)
    } else if entries[id].len() < 8 {
        Err(Error::BabeInherentDataRetrieval(arbitrary()))
    } else {
        Ok(le_value(entries[id].take(8)) as u64)
    }
}

impl<B> Digest<B> {
    /// The one value of the type: it carries no data.
    pub closed spec fn unique() -> Self {
        Digest { _phantom: PhantomData }
    }

    /// A BABE digest.
    pub fn new() -> (r: Self)
        ensures
            r == Self::unique(),
    {
        Digest { _phantom: PhantomData }
    }

    /// The slot filed as BABE inherent data; BABE's pre-digest carries it.
    pub fn slot(&self, inherents: &sp_inherents::InherentData) -> (r: Result<u64, Error>)
        ensures
            r is Ok <==> babe_slot_of(inherent_entries(*inherents)) is Ok,
            r is Ok ==> r == babe_slot_of(inherent_entries(*inherents)),
            r matches Err(e) ==> (e is BabeInherentDataNotFound <==> babe_slot_of(
                inherent_entries(*inherents),
            ) matches Err(Error::BabeInherentDataNotFound)),
            r matches Err(e) ==> e is BabeInherentDataNotFound || e is BabeInherentDataRetrieval,
    {
        match get_u64(inherents, babe_identifier()) {
            Err(e) => Err(Error::BabeInherentDataRetrieval(e)),
            Ok(None) => Err(Error::BabeInherentDataNotFound),
            Ok(Some(slot)) => Ok(slot),
        }
    }
}

/// The BABE slot depends on the `babeslot` entry alone: filing or changing an
/// entry under any other identifier (such as the timestamp) leaves it as it was.
pub proof fn lemma_babe_slot_reads_only_its_entry(entries: Map<Seq<u8>, Seq<u8>>, id: Seq<u8>, value: Seq<u8>)
    requires
        id != babe_identifier_spec(),
    ensures
        babe_slot_of(entries.insert(id, value)) == babe_slot_of(entries),
{
    let b = babe_identifier_spec();
    assert(entries.insert(id, value).contains_key(b) == entries.contains_key(b));
    if entries.contains_key(b) {
        assert(entries.insert(id, value)[b] == entries[b]);
    }
}

/// Filing slot `s` as BABE inherent data and reading the slot back gives `s`,
/// whatever else is filed.
pub proof fn lemma_babe_slot_of_filed_slot(entries: Map<Seq<u8>, Seq<u8>>, s: u64)
    ensures
        babe_slot_of(entries.insert(babe_identifier_spec(), encode_u64(s))) == Ok::<u64, Error>(s),
{
    lemma_encode_u64_round_trip(s);
    assert(encode_u64(s).take(8) =~= encode_u64(s));
}

/// Without a `babeslot` entry there is no slot, whatever else is filed.
pub proof fn lemma_babe_slot_needs_its_entry(entries: Map<Seq<u8>, Seq<u8>>)
    requires
        !entries.contains_key(babe_identifier_spec()),
    ensures
        babe_slot_of(entries) == Err::<u64, Error>(Error::BabeInherentDataNotFound),
{
}

} // verus!
