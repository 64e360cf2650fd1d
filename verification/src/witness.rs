//! The witness: field elements by dense index, and the envelope that the
//! backend reads them from.

use std::collections::BTreeMap;
use vstd::array::array_as_slice;
use vstd::prelude::*;
use vstd::slice::slice_to_vec;
use vstd::utf8::encode_utf8;

use crate::error::Error;
use crate::error::Fault;
use crate::field::field_of_text;
use crate::field::parse_field;
use crate::field::FieldFault;

verus! {

/// The first byte of a witness envelope: a compressed, tagged witness stack,
/// second version of the format.
pub const WITNESS_FORMAT_VERSION: u8 = 2;

/// The index of the only item of the witness stack.
pub const STACK_INDEX: u32 = 0;

/// The MessagePack encoding of a witness stack, structures written as arrays,
/// if it has one. An item of the stack is its index and its witness map.
pub uninterp spec fn msgpack_witness_stack(stack: Seq<(u32, Map<u32, Seq<u8>>)>) -> Option<Seq<u8>>;

/// A witness map as plain values.
pub open spec fn witness_entries(witness: BTreeMap<u32, Vec<u8>>) -> Map<u32, Seq<u8>> {
    witness@.map_values(|value: Vec<u8>| value@)
}

/// A witness stack as plain values.
pub open spec fn stack_entries(stack: Seq<(u32, BTreeMap<u32, Vec<u8>>)>) -> Seq<
    (u32, Map<u32, Seq<u8>>),
> {
    Seq::new(stack.len(), |i: int| (stack[i].0, witness_entries(stack[i].1)))
}

/// Calls `rmp_serde::to_vec` on a structure with one field, the stack, after
/// changing each value of each map into a `serde_bytes::ByteBuf`. The result
/// depends on the stack alone; the error comes back as its text.
#[verifier::external_body]
fn witness_stack_to_msgpack(stack: &Vec<(u32, BTreeMap<u32, Vec<u8>>)>) -> (encoded: Result<
    Vec<u8>,
    String,
>)
    ensures
        match encoded {
            Ok(bytes) => msgpack_witness_stack(stack_entries(stack@)) == Some(bytes@),
            Err(_) => msgpack_witness_stack(stack_entries(stack@)) is None,
        },
{
    let items: Vec<(u32, BTreeMap<u32, serde_bytes::ByteBuf>)> = stack.iter().map(
        |(index, witness)|
            (
                *index,
                witness.iter().map(|(k, v)| (*k, serde_bytes::ByteBuf::from(v.clone()))).collect(),
            ),
    ).collect();
    rmp_serde::to_vec(&(items,)).map_err(|e| e.to_string())
}

/// The field elements as byte sequences.
pub open spec fn field_views(fields: Seq<[u8; 32]>) -> Seq<Seq<u8>> {
    Seq::new(fields.len(), |i: int| fields[i]@)
}

/// The witness map of an ordered list: the element at place `k` under index `k`.
pub open spec fn witness_map(fields: Seq<Seq<u8>>) -> Map<u32, Seq<u8>> {
    Map::new(|k: u32| (k as int) < fields.len(), |k: u32| fields[k as int])
}

/// The envelope of an ordered witness list: the format version, then the
/// encoding of a stack whose one item holds the witness map.
pub open spec fn witness_envelope(fields: Seq<Seq<u8>>) -> Option<Seq<u8>> {
    match msgpack_witness_stack(seq![(STACK_INDEX, witness_map(fields))]) {
        Some(bytes) => Some(seq![WITNESS_FORMAT_VERSION] + bytes),
        None => None,
    }
}

/// Whether `encoded` is what encoding the witness list `fields` must give.
pub open spec fn encoded_as_witness(fields: Seq<[u8; 32]>, encoded: Result<Vec<u8>, Error>) -> bool {
    if fields.len() > u32::MAX {
        encoded matches Err(Error::WitnessTooLong)
    } else {
        match witness_envelope(field_views(fields)) {
            Some(envelope) => encoded matches Ok(bytes) && bytes@ == envelope,
            None => encoded matches Err(Error::WitnessEncoding(_)),
        }
    }
}

/// Adds one entry to a witness map.
fn insert_entry(witness: &mut BTreeMap<u32, Vec<u8>>, index: u32, value: Vec<u8>)
    ensures
        final(witness)@ == old(witness)@.insert(index, value),
{
    broadcast use vstd::laws_cmp::group_laws_cmp;

    witness.insert(index, value);
}

/// Builds the witness map of an ordered list of field elements.
pub fn build_witness_map(fields: &Vec<[u8; 32]>) -> (witness: BTreeMap<u32, Vec<u8>>)
    requires
        fields@.len() <= u32::MAX,
    ensures
        witness_entries(witness) == witness_map(field_views(fields@)),
{
    let mut witness: BTreeMap<u32, Vec<u8>> = BTreeMap::new();
    let mut i: usize = 0;
    while i < fields.len()
        invariant
            i <= fields@.len() <= u32::MAX,
            forall|k: u32| witness@.contains_key(k) <==> (k as int) < i,
            forall|k: u32| (k as int) < i ==> (#[trigger] witness@[k])@ == fields@[k as int]@,
        decreases fields@.len() - i,
    {
        let value = slice_to_vec(array_as_slice(&fields[i]));
        insert_entry(&mut witness, i as u32, value);
        i += 1;
    }
    assert(witness_entries(witness) =~= witness_map(field_views(fields@)));
    witness
}

/// Puts the format version before an encoded witness stack.
pub fn frame_witness(outcome: Result<Vec<u8>, String>) -> (framed: Result<Vec<u8>, Error>)
    ensures
        match outcome {
            Ok(bytes) => framed matches Ok(envelope) && envelope@ == seq![WITNESS_FORMAT_VERSION]
                + bytes@,
            Err(detail) => framed matches Err(Error::WitnessEncoding(d)) && d@ == detail@,
        },
{
    match outcome {
        Ok(bytes) => {
            let mut envelope: Vec<u8> = Vec::new();
            envelope.push(WITNESS_FORMAT_VERSION);
            envelope.extend_from_slice(bytes.as_slice());
            assert(envelope@ =~= seq![WITNESS_FORMAT_VERSION] + bytes@);
            Ok(envelope)
        },
        Err(detail) => Err(Error::WitnessEncoding(detail)),
    }
}

/// Encodes an ordered list of field elements as the envelope that the backend
/// reads a witness from.
pub fn encode_witness(fields: &Vec<[u8; 32]>) -> (encoded: Result<Vec<u8>, Error>)
    ensures
        encoded_as_witness(fields@, encoded),
{
    if fields.len() > u32::MAX as usize {
        return Err(Error::WitnessTooLong);
    }
    let witness = build_witness_map(fields);
    let mut stack: Vec<(u32, BTreeMap<u32, Vec<u8>>)> = Vec::new();
    stack.push((STACK_INDEX, witness));
    assert(stack_entries(stack@) =~= seq![(STACK_INDEX, witness_map(field_views(fields@)))]);
    frame_witness(witness_stack_to_msgpack(&stack))
}

/// Encoding the same witness list twice gives the same outcome: two envelopes
/// with the same bytes, the first of them the format version, or two failures.
pub proof fn lemma_encode_witness_deterministic(
    fields: Seq<[u8; 32]>,
    first: Result<Vec<u8>, Error>,
    second: Result<Vec<u8>, Error>,
)
    requires
        encoded_as_witness(fields, first),
        encoded_as_witness(fields, second),
    ensures
        first is Ok <==> second is Ok,
        first matches Ok(a) ==> second matches Ok(b) && a@ == b@ && a@.len() > 0 && a@[0]
            == WITNESS_FORMAT_VERSION,
{
}

/// The bytes of the text at place `i`.
pub open spec fn value_bytes(values: Seq<String>, i: int) -> Seq<u8> {
    encode_utf8(values[i]@)
}

/// Whether `k` is the place of the first text that denotes no field element.
pub open spec fn is_first_unparsable(values: Seq<String>, k: int) -> bool {
    &&& 0 <= k < values.len()
    &&& field_of_text(value_bytes(values, k)) is Err
    &&& forall|j: int| 0 <= j < k ==> field_of_text(#[trigger] value_bytes(values, j)) is Ok
}

/// The field elements that the texts denote, in order, or the fault of the
/// first text that denotes none.
pub open spec fn fields_of(values: Seq<String>) -> Result<Seq<Seq<u8>>, Fault> {
    if forall|i: int| 0 <= i < values.len() ==> field_of_text(#[trigger] value_bytes(values, i)) is Ok {
        Ok(Seq::new(values.len(), |i: int| field_of_text(value_bytes(values, i))->Ok_0))
    } else {
        let k = choose|k: int| is_first_unparsable(values, k);
        Err(field_of_text(value_bytes(values, k))->Err_0.fault())
    }
}

/// Only one place is that of the first text that denotes no field element.
pub proof fn lemma_first_unparsable_unique(values: Seq<String>, a: int, b: int)
    requires
        is_first_unparsable(values, a),
        is_first_unparsable(values, b),
    ensures
        a == b,
{
    if a < b {
        assert(field_of_text(value_bytes(values, a)) is Ok);
    }
    if b < a {
        assert(field_of_text(value_bytes(values, b)) is Ok);
    }
}

/// Reads the textual witness values, in order, as field elements.
pub fn parse_witness(values: &Vec<String>) -> (parsed: Result<Vec<[u8; 32]>, Error>)
    ensures
        match fields_of(values@) {
            Ok(fields) => parsed matches Ok(found) && field_views(found@) == fields,
            Err(fault) => parsed matches Err(e) && e@ == fault,
        },
{
    let mut fields: Vec<[u8; 32]> = Vec::new();
    let mut i: usize = 0;
    while i < values.len()
        invariant
            i <= values@.len(),
            fields@.len() == i,
            forall|j: int|
                0 <= j < i ==> field_of_text(#[trigger] value_bytes(values@, j)) == Ok::<
                    Seq<u8>,
                    FieldFault,
                >(fields@[j]@),
        decreases values@.len() - i,
    {
        match parse_field(values[i].as_str()) {
            Ok(field) => {
                fields.push(field);
            },
            Err(fault) => {
                proof {
                    assert(is_first_unparsable(values@, i as int));
                    let k = choose|k: int| is_first_unparsable(values@, k);
                    lemma_first_unparsable_unique(values@, i as int, k);
                }
                return Err(fault);
            },
        }
        i += 1;
    }
    assert(field_views(fields@) =~= fields_of(values@)->Ok_0);
    Ok(fields)
}

} // verus!
