//! The change builder: logical entries, provider change operations, and the
//! ordered batch that one run submits.

use vstd::prelude::*;

verus! {

/// A logical update request: bind the record `name` to the address `ip`.
///
/// Neither field is validated for syntax; a malformed value is passed through
/// unchanged and rejected, if at all, only by the provider.
#[derive(Debug, Clone, PartialEq, Eq)]
pub struct Entry {
    pub name: String,
    pub ip: String,
}

/// Ghost model of an `Entry`.
pub ghost struct EntryModel {
    pub name: Seq<char>,
    pub ip: Seq<char>,
}

impl View for Entry {
    type V = EntryModel;

    open spec fn view(&self) -> EntryModel {
        EntryModel { name: self.name@, ip: self.ip@ }
    }
}

/// The record data one change operation targets: name, record type,
/// time-to-live in seconds, and the ordered address values.
#[derive(Debug, Clone, PartialEq, Eq)]
pub struct RecordSet {
    pub name: String,
    pub record_type: String,
    pub ttl: u64,
    pub values: Vec<String>,
}

/// Ghost model of a `RecordSet`.
pub ghost struct RecordSetModel {
    pub name: Seq<char>,
    pub record_type: Seq<char>,
    pub ttl: int,
    pub values: Seq<Seq<char>>,
}

impl View for RecordSet {
    type V = RecordSetModel;

    open spec fn view(&self) -> RecordSetModel {
        RecordSetModel {
            name: self.name@,
            record_type: self.record_type@,
            ttl: self.ttl as int,
            values: Seq::new(self.values@.len(), |i: int| self.values@[i]@),
        }
    }
}

/// One provider change operation: an action applied to a record set.
#[derive(Debug, Clone, PartialEq, Eq)]
pub struct ChangeOperation {
    pub action: String,
    pub record_set: RecordSet,
}

/// Ghost model of a `ChangeOperation`.
pub ghost struct ChangeOperationModel {
    pub action: Seq<char>,
    pub record_set: RecordSetModel,
}

impl View for ChangeOperation {
    type V = ChangeOperationModel;

    open spec fn view(&self) -> ChangeOperationModel {
        ChangeOperationModel { action: self.action@, record_set: self.record_set@ }
    }
}

/// The one change operation owed for the entry `(name, ip)`: the upsert
/// action, record type `"A"`, time-to-live 300 seconds, and exactly the one
/// value `ip`.
pub open spec fn change_of(name: Seq<char>, ip: Seq<char>) -> ChangeOperationModel {
    ChangeOperationModel {
        action: "UPSERT"@,
        record_set: RecordSetModel {
            name: name,
            record_type: "A"@,
            ttl: 300,
            values: seq![ip],
        },
    }
}

/// Builds the change operation for one entry. Whatever the entry holds, the
/// operation carries the upsert action, record type `"A"` and time-to-live
/// 300: these are constants of the builder, not inputs.
pub fn build_change(entry: Entry) -> (op: ChangeOperation)
    ensures
        op@ == change_of(entry.name@, entry.ip@),
        op@.record_set.record_type == "A"@,
        op@.record_set.ttl == 300,
        op@.action == "UPSERT"@,
{
    let mut values: Vec<String> = Vec::new();
    values.push(entry.ip);
    let op = ChangeOperation {
        action: "UPSERT".to_owned(),
        record_set: RecordSet {
            name: entry.name,
            record_type: "A".to_owned(),
            ttl: 300,
            values: values,
        },
    };
    proof {
        assert(op@.record_set.values =~= change_of(entry.name@, entry.ip@).record_set.values);
    }
    op
}

/// An ordered batch of change operations. The provider-side comment is
/// absent, so the batch is the sequence of changes and nothing more.
#[derive(Debug, Clone, PartialEq, Eq)]
pub struct ChangeBatch {
    pub changes: Vec<ChangeOperation>,
}

impl View for ChangeBatch {
    type V = Seq<ChangeOperationModel>;

    open spec fn view(&self) -> Seq<ChangeOperationModel> {
        Seq::new(self.changes@.len(), |i: int| self.changes@[i]@)
    }
}

/// Builds the batch for an ordered list of entries: one change operation per
/// entry, in the same order, one-to-one. Zero entries give the valid empty
/// batch.
pub fn build_batch(entries: &Vec<Entry>) -> (batch: ChangeBatch)
    ensures
        batch@.len() == entries@.len(),
        forall|i: int|
            0 <= i < entries@.len() ==> batch@[i] == change_of(
                entries@[i].name@,
                entries@[i].ip@,
            ),
{
    let mut changes: Vec<ChangeOperation> = Vec::new();
    let mut i: usize = 0;
    while i < entries.len()
        invariant
            i <= entries@.len(),
            changes@.len() == i,
            forall|j: int|
                0 <= j < i ==> changes@[j]@ == change_of(entries@[j].name@, entries@[j].ip@),
        decreases entries@.len() - i,
    {
        let entry = &entries[i];
        let op = build_change(Entry { name: entry.name.clone(), ip: entry.ip.clone() });
        changes.push(op);
        i = i + 1;
    }
    ChangeBatch { changes }
}

/// The single request one run submits: the whole batch, scoped to one hosted
/// zone. However many changes the batch holds, they travel in this one
/// request, never in one request per change.
#[derive(Debug, Clone, PartialEq, Eq)]
pub struct ChangeRequest {
    pub zone_id: String,
    pub batch: ChangeBatch,
}

/// Wraps a batch and the target zone reference into the one request to
/// submit.
pub fn make_request(zone_id: String, batch: ChangeBatch) -> (req: ChangeRequest)
    ensures
        req.zone_id@ == zone_id@,
        req.batch@ == batch@,
{
    ChangeRequest { zone_id, batch }
}

} // verus!
