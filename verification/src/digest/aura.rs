//! The AuRa pre-digest announces the slot of the block's timestamp.

use crate::digest::Error;
use crate::inherent::data::{
    encode_u64, get_u64, inherent_entries, le_value, lemma_encode_u64_round_trip, timestamp_identifier,
    timestamp_identifier_spec,
};
use std::marker::PhantomData;
use vstd::prelude::*;

verus! {

/// Wraps `sp_consensus_slots::Slot::from_timestamp`: the slot of a timestamp
/// is the timestamp divided by the slot duration, both in milliseconds.
#[verifier::external_body]
fn slot_from_timestamp(timestamp: u64, slot_duration: u64) -> (r: u64)
    requires
        slot_duration > 0,
    ensures
        r == timestamp / slot_duration,
{
    *sp_consensus_slots::Slot::from_timestamp(
        sp_timestamp::Timestamp::new(timestamp),
        sp_consensus_slots::SlotDuration::from_millis(slot_duration),
    )
}

/// The AuRa pre-digest of blocks of type `B` for slots of the given length in
/// milliseconds.
pub struct Digest<B> {
    slot_duration: u64,
    _phantom: PhantomData<B>,
}

/// What reading the slot of the timestamp filed in `entries` gives, for slots
/// of `slot_duration` milliseconds.
pub open spec fn aura_slot_of(entries: Map<Seq<u8>, Seq<u8>>, slot_duration: u64) -> Result<u64, Error> {
    let id = timestamp_identifier_spec();
    if !entries.contains_key(id) {
        Err(Error::TimestampInherentDataNotFound)
    } else if entries[id].len() < 8 {
        Err(Error::TimestampInherentDataRetrieval(arbitrary()))
    } else {
        Ok((le_value(entries[id].take(8)) / slot_duration as nat) as u64)
    }
}

impl<B> Digest<B> {
    /// The slot length, in milliseconds.
    pub closed spec fn slot_duration(&self) -> u64 {
        self.slot_duration
    }

    /// A digest for slots of `slot_duration` milliseconds.
    pub fn new(slot_duration: u64) -> (r: Self)
        ensures
            r.slot_duration() == slot_duration,
    {
        Digest { slot_duration, _phantom: PhantomData }
    }

    /// The slot the block's timestamp falls in; AuRa's pre-digest carries it.
    pub fn slot(&self, inherents: &sp_inherents::InherentData) -> (r: Result<u64, Error>)
        requires
            self.slot_duration() > 0,
        ensures
            r is Ok <==> aura_slot_of(inherent_entries(*inherents), self.slot_duration()) is Ok,
            r is Ok ==> r == aura_slot_of(inherent_entries(*inherents), self.slot_duration()),
            r matches Err(e) ==> (e is TimestampInherentDataNotFound <==> aura_slot_of(
                inherent_entries(*inherents),
                self.slot_duration(),
            ) matches Err(Error::TimestampInherentDataNotFound)),
            r matches Err(e) ==> e is TimestampInherentDataNotFound || e is TimestampInherentDataRetrieval,
    {
        let timestamp = match get_u64(inherents, timestamp_identifier()) {
            Err(e) => return Err(Error::TimestampInherentDataRetrieval(e)),
            Ok(None) => return Err(Error::TimestampInherentDataNotFound),
            Ok(Some(t)) => t,
        };
        Ok(slot_from_timestamp(timestamp, self.slot_duration))
    }
}

/// The AuRa slot of a block is the timestamp filed for it divided by the slot
/// duration: filing timestamp `t` and reading the slot back gives `t / d`.
pub proof fn lemma_slot_of_filed_timestamp(entries: Map<Seq<u8>, Seq<u8>>, t: u64, d: u64)
    requires
        d > 0,
    ensures
        aura_slot_of(entries.insert(timestamp_identifier_spec(), encode_u64(t)), d) == Ok::<u64, Error>(
            t / d,
        ),
{
    lemma_encode_u64_round_trip(t);
    assert(encode_u64(t).take(8) =~= encode_u64(t));
}

/// The AuRa slot depends on the timestamp entry alone: filing or changing an
/// entry under any other identifier (such as the BABE slot) leaves it as it was.
pub proof fn lemma_aura_slot_reads_only_the_timestamp(
    entries: Map<Seq<u8>, Seq<u8>>,
    id: Seq<u8>,
    value: Seq<u8>,
    d: u64,
)
    requires
        id != timestamp_identifier_spec(),
    ensures
        aura_slot_of(entries.insert(id, value), d) == aura_slot_of(entries, d),
{
    let t = timestamp_identifier_spec();
    assert(entries.insert(id, value).contains_key(t) == entries.contains_key(t));
    if entries.contains_key(t) {
        assert(entries.insert(id, value)[t] == entries[t]);
    }
}

/// Without a timestamp there is no AuRa slot, whatever else is filed.
pub proof fn lemma_aura_slot_needs_a_timestamp(entries: Map<Seq<u8>, Seq<u8>>, d: u64)
    requires
        !entries.contains_key(timestamp_identifier_spec()),
    ensures
        aura_slot_of(entries, d) == Err::<u64, Error>(Error::TimestampInherentDataNotFound),
{
}

} // verus!
