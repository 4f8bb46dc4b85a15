//! Inherent data as the Substrate client collects it before a block is built:
//! a map from 8-byte identifiers to SCALE-encoded values.

use vstd::prelude::*;

verus! {

#[verifier::external_type_specification]
#[verifier::external_body]
pub struct ExInherentData(sp_inherents::InherentData);

/// What an `sp_inherents::InherentData` holds: encoded values by identifier.
pub uninterp spec fn inherent_entries(data: sp_inherents::InherentData) -> Map<Seq<u8>, Seq<u8>>;

/// The first `n` little-endian bytes of `x`.
pub open spec fn le_bytes(x: nat, n: nat) -> Seq<u8>
    decreases n,
{
    if n == 0 {
        Seq::<u8>::empty()
    } else {
        seq![(x % 256) as u8] + le_bytes(x / 256, (n - 1) as nat)
    }
}

/// The number whose little-endian bytes are `b`.
pub open spec fn le_value(b: Seq<u8>) -> nat
    decreases b.len(),
{
    if b.len() == 0 {
        0
    } else {
        b[0] as nat + 256 * le_value(b.drop_first())
    }
}

/// The SCALE encoding of a `u64`: its eight little-endian bytes.
pub open spec fn encode_u64(x: u64) -> Seq<u8> {
    le_bytes(x as nat, 8)
}

/// `256` to the power `n`.
pub open spec fn pow256(n: nat) -> nat
    decreases n,
{
    if n == 0 { 1 } else { 256 * pow256((n - 1) as nat) }
}

/// Reading back `n` little-endian bytes of a number below `256^n` gives the number.
pub proof fn lemma_le_value_of_le_bytes(x: nat, n: nat)
    requires
        x < pow256(n),
    ensures
        le_bytes(x, n).len() == n,
        le_value(le_bytes(x, n)) == x,
    decreases n,
{
    if n > 0 {
        let rest = le_bytes(x / 256, (n - 1) as nat);
        let p = pow256((n - 1) as nat);
        assert(x / 256 < p) by (nonlinear_arith)
            requires
                x < 256 * p,
        ;
        lemma_le_value_of_le_bytes(x / 256, (n - 1) as nat);
        assert((seq![(x % 256) as u8] + rest).drop_first() =~= rest);
    }
}

/// The encoding of a `u64` is eight bytes long and decodes to the same number.
pub proof fn lemma_encode_u64_round_trip(x: u64)
    ensures
        encode_u64(x).len() == 8,
        le_value(encode_u64(x)) == x,
{
    reveal_with_fuel(pow256, 9);
    assert(pow256(8) == 0x1_0000_0000_0000_0000nat);
    lemma_le_value_of_le_bytes(x as nat, 8);
}

/// Files a timestamp under `identifier`.
/// Wraps `sp_inherents::InherentData::put_data` with an `sp_timestamp::Timestamp`:
/// an identifier already present leaves the data unchanged and returns the
/// error's message; otherwise the timestamp's SCALE encoding (the eight little-endian
/// bytes of its milliseconds) is filed under it.
#[verifier::external_body]
pub(crate) fn put_timestamp(
    data: &mut sp_inherents::InherentData,
    identifier: [u8; 8],
    millis: u64,
) -> (r: Result<(), String>)
    ensures
        r is Ok <==> !inherent_entries(*old(data)).contains_key(identifier@),
        r is Err ==> inherent_entries(*final(data)) == inherent_entries(*old(data)),
        r is Ok ==> inherent_entries(*final(data)) == inherent_entries(*old(data)).insert(
            identifier@,
            encode_u64(millis),
        ),
{
    match data.put_data(identifier, &sp_timestamp::Timestamp::new(millis)) {
        Ok(()) => Ok(()),
        Err(e) => Err(e.to_string()),
    }
}

/// Reads a `u64` filed under `identifier`.
/// Wraps `sp_inherents::InherentData::get_data::<u64>`: `Ok(None)` when
/// nothing is filed there, the number whose little-endian bytes are the first
/// eight filed bytes when there are at least eight, and the decoding error's
/// message otherwise.
#[verifier::external_body]
pub(crate) fn get_u64(data: &sp_inherents::InherentData, identifier: [u8; 8]) -> (r: Result<Option<u64>, String>)
    ensures
        r matches Ok(None) <==> !inherent_entries(*data).contains_key(identifier@),
        r is Err <==> (inherent_entries(*data).contains_key(identifier@)
            && inherent_entries(*data)[identifier@].len() < 8),
        r matches Ok(Some(v)) ==> inherent_entries(*data).contains_key(identifier@)
            && v == le_value(inherent_entries(*data)[identifier@].take(8)),
{
    match data.get_data::<u64>(&identifier) {
        Ok(v) => Ok(v),
        Err(e) => Err(e.to_string()),
    }
}

/// The identifier of the timestamp inherent.
/// Wraps `sp_timestamp::INHERENT_IDENTIFIER`, which is `*b"timstap0"`.
#[verifier::external_body]
pub(crate) fn timestamp_identifier() -> (r: [u8; 8])
    ensures
        r@ == timestamp_identifier_spec(),
{
    sp_timestamp::INHERENT_IDENTIFIER
}

/// The bytes of `b"timstap0"`.
pub open spec fn timestamp_identifier_spec() -> Seq<u8> {
    seq![116u8, 105u8, 109u8, 115u8, 116u8, 97u8, 112u8, 48u8]
}

} // verus!
