//! A model of the hosted zone's state, and what applying change operations
//! does to it. The provider applies an upsert by creating the record if
//! absent and replacing it if present, so applying the same operation again
//! changes nothing: the laws below state that.

use vstd::prelude::*;
use crate::record::ChangeOperationModel;
use crate::record::change_of;

verus! {

/// The data a zone holds under one record name.
pub ghost struct RecordData {
    pub record_type: Seq<char>,
    pub ttl: int,
    pub values: Seq<Seq<char>>,
}

/// A hosted zone's state: each record name maps to the data it holds.
pub type ZoneState = Map<Seq<char>, RecordData>;

/// The zone after one upsert: the record under the operation's name is
/// created if absent and replaced if present; every other record is kept.
pub open spec fn apply_change(zone: ZoneState, op: ChangeOperationModel) -> ZoneState {
    zone.insert(
        op.record_set.name,
        RecordData {
            record_type: op.record_set.record_type,
            ttl: op.record_set.ttl,
            values: op.record_set.values,
        },
    )
}

/// The zone after a whole batch, applied in the batch's order.
pub open spec fn apply_batch(zone: ZoneState, ops: Seq<ChangeOperationModel>) -> ZoneState
    decreases ops.len(),
{
    if ops.len() == 0 {
        zone
    } else {
        apply_batch(apply_change(zone, ops[0]), ops.drop_first())
    }
}

/// Applying the same change operation twice in succession leaves the zone
/// exactly as applying it once does: the upsert action is idempotent.
pub proof fn lemma_upsert_idempotent(zone: ZoneState, op: ChangeOperationModel)
    ensures
        apply_change(apply_change(zone, op), op) == apply_change(zone, op),
{
    assert(apply_change(apply_change(zone, op), op) =~= apply_change(zone, op));
}

/// A batch of exactly one operation moves the zone as that one upsert does.
pub proof fn lemma_single_batch(zone: ZoneState, op: ChangeOperationModel)
    ensures
        apply_batch(zone, seq![op]) == apply_change(zone, op),
{
    let b = seq![op];
    let z1 = apply_change(zone, op);
    assert(b[0] == op);
    assert(b.drop_first() =~= Seq::<ChangeOperationModel>::empty());
    assert(apply_batch(z1, b.drop_first()) == z1);
    assert(apply_batch(zone, b) == apply_batch(z1, b.drop_first()));
}

/// Submitting the entry `(name, ip)` twice in succession yields a zone state
/// identical to submitting it once: both runs leave the zone with the same
/// logical end record, whatever their response payloads were.
pub proof fn lemma_entry_submission_idempotent(zone: ZoneState, name: Seq<char>, ip: Seq<char>)
    ensures
        apply_batch(apply_batch(zone, seq![change_of(name, ip)]), seq![change_of(name, ip)])
            == apply_batch(zone, seq![change_of(name, ip)]),
{
    let op = change_of(name, ip);
    lemma_single_batch(zone, op);
    lemma_single_batch(apply_change(zone, op), op);
    lemma_upsert_idempotent(zone, op);
}

} // verus!
