//! A model of the provider's record store, and the reconciliation laws.
//!
//! The provider stores the records of a zone and applies create and update
//! calls to them: a create stores the new record under a provider-chosen
//! identifier, an update addressed by an identifier replaces the fields of
//! the record that carries it. Over this model the two laws of the
//! reconciler are stated and proved: planning the same desired state twice
//! settles on the same update to the same record, and a create followed by
//! another cycle updates the created record in place.

use crate::errors::DdnsError;
use crate::record::{
    desired_record, listed_records_wf, plan_spec, records_matching, DesiredState, DnsRecord,
    RecordAction,
};
use vstd::prelude::*;

verus! {

/// The record stored after an update: it keeps its identity and takes the
/// updated fields.
pub open spec fn updated_record(r: DnsRecord, record: DnsRecord) -> DnsRecord {
    DnsRecord {
        id: r.id,
        name: record.name,
        content: record.content,
        proxied: record.proxied,
        ttl: record.ttl,
    }
}

/// How an update addressed by `id` acts on one stored record.
pub open spec fn update_one(r: DnsRecord, id: String, record: DnsRecord) -> DnsRecord {
    if r.id == Some(id) {
        updated_record(r, record)
    } else {
        r
    }
}

/// The store after the provider applies a create: the new record is stored
/// under the provider-chosen identifier `new_id`.
pub open spec fn apply_create(rs: Seq<DnsRecord>, record: DnsRecord, new_id: String) -> Seq<
    DnsRecord,
> {
    rs.push(
        DnsRecord {
            id: Some(new_id),
            name: record.name,
            content: record.content,
            proxied: record.proxied,
            ttl: record.ttl,
        },
    )
}

/// The store after the provider applies an update addressed by `id`: the
/// record carrying `id` takes the updated fields, every other record is
/// untouched.
pub open spec fn apply_update(rs: Seq<DnsRecord>, id: String, record: DnsRecord) -> Seq<DnsRecord> {
    Seq::new(rs.len(), |i: int| update_one(rs[i], id, record))
}

/// Provider identifiers identify: no two stored records share one.
pub open spec fn distinct_ids(rs: Seq<DnsRecord>) -> bool {
    forall|i: int, j: int|
        0 <= i < j < rs.len() ==> (#[trigger] rs[i]).id != (#[trigger] rs[j]).id
}

/// Every matching record carries the desired name and comes from the store.
proof fn lemma_matching_members(rs: Seq<DnsRecord>, name: Seq<char>)
    ensures
        forall|k: int|
            #![trigger records_matching(rs, name)[k]]
            0 <= k < records_matching(rs, name).len() ==> records_matching(rs, name)[k].name@
                == name && rs.contains(records_matching(rs, name)[k]),
    decreases rs.len(),
{
    let m = records_matching(rs, name);
    if rs.len() > 0 {
        let rest = records_matching(rs.drop_last(), name);
        lemma_matching_members(rs.drop_last(), name);
        assert forall|k: int| 0 <= k < m.len() implies m[k].name@ == name && rs.contains(
            m[k],
        ) by {
            if k < rest.len() {
                assert(m[k] == rest[k]);
                assert(rs.drop_last().contains(rest[k]));
                let j = choose|j: int|
                    0 <= j < rs.drop_last().len() && rs.drop_last()[j] == rest[k];
                assert(rs[j] == rest[k]);
            } else {
                assert(m[k] == rs.last());
                assert(rs[rs.len() - 1] == rs.last());
            }
        }
    }
}

/// Updating commutes with selecting the matching records, provided every
/// record carrying the addressed identifier matches the name (so an update
/// neither adds a match nor takes one away).
proof fn lemma_matching_after_update(rs: Seq<DnsRecord>, name: Seq<char>, id: String, record: DnsRecord)
    requires
        record.name@ == name,
        forall|i: int|
            0 <= i < rs.len() ==> ((#[trigger] rs[i]).id == Some(id) ==> rs[i].name@ == name),
    ensures
        records_matching(apply_update(rs, id, record), name).len() == records_matching(
            rs,
            name,
        ).len(),
        forall|k: int|
            #![trigger records_matching(apply_update(rs, id, record), name)[k]]
            0 <= k < records_matching(rs, name).len() ==> records_matching(
                apply_update(rs, id, record),
                name,
            )[k] == update_one(records_matching(rs, name)[k], id, record),
    decreases rs.len(),
{
    let rs2 = apply_update(rs, id, record);
    if rs.len() == 0 {
        assert(rs2 =~= Seq::<DnsRecord>::empty());
    } else {
        lemma_matching_after_update(rs.drop_last(), name, id, record);
        assert(rs2.drop_last() =~= apply_update(rs.drop_last(), id, record));
        assert(rs2.last() == update_one(rs.last(), id, record));
        if rs.last().id == Some(id) {
            assert(rs.last().name@ == name);
            assert(rs2.last().name@ == name);
        } else {
            assert(rs2.last() == rs.last());
        }
    }
}

/// Planning the same desired state twice settles: with exactly one record
/// under the desired name, the plan is an update addressed by that record's
/// identifier; after the provider applies it, planning again yields the very
/// same update, and applying that is a no-op on the store.
pub proof fn lemma_reconcile_idempotent(rs: Seq<DnsRecord>, d: DesiredState)
    requires
        listed_records_wf(rs),
        distinct_ids(rs),
        records_matching(rs, d.domain@).len() == 1,
    ensures
        ({
            let m = records_matching(rs, d.domain@);
            let id = m[0].id.unwrap();
            let rec = desired_record(d);
            let rs2 = apply_update(rs, id, rec);
            &&& plan_spec(rs, d) == Ok::<RecordAction, DdnsError>(
                RecordAction::Update { id, record: rec },
            )
            &&& plan_spec(rs2, d) == plan_spec(rs, d)
            &&& apply_update(rs2, id, rec) == rs2
        }),
{
    let name = d.domain@;
    let m = records_matching(rs, name);
    let id = m[0].id.unwrap();
    let rec = desired_record(d);
    let rs2 = apply_update(rs, id, rec);
    lemma_matching_members(rs, name);
    assert(rs.contains(m[0]));
    let k = choose|k: int| 0 <= k < rs.len() && rs[k] == m[0];
    assert(rs[k].id is Some);
    assert(rs[k].id == Some(id));
    assert forall|i: int| 0 <= i < rs.len() && (#[trigger] rs[i]).id == Some(id) implies rs[i].name@
        == name by {
        if i != k {
            assert(rs[i].id != rs[k].id);
        }
    }
    lemma_matching_after_update(rs, name, id, rec);
    let m2 = records_matching(rs2, name);
    assert(m2[0] == update_one(m[0], id, rec));
    assert(m2[0].id == Some(id));
    assert(apply_update(rs2, id, rec) =~= rs2);
}

/// With no record under the desired name, the plan is a create; once the
/// provider has stored the created record under `new_id`, any later cycle
/// for the same name — whatever address it now desires — plans an update of
/// that very record, addressed by `new_id`.
pub proof fn lemma_create_then_update(
    rs: Seq<DnsRecord>,
    d: DesiredState,
    d2: DesiredState,
    new_id: String,
)
    requires
        records_matching(rs, d.domain@).len() == 0,
        d2.domain == d.domain,
    ensures
        ({
            let rs2 = apply_create(rs, desired_record(d), new_id);
            &&& plan_spec(rs, d) == Ok::<RecordAction, DdnsError>(
                RecordAction::Create { record: desired_record(d) },
            )
            &&& plan_spec(rs2, d2) == Ok::<RecordAction, DdnsError>(
                RecordAction::Update { id: new_id, record: desired_record(d2) },
            )
        }),
{
    let name = d.domain@;
    let rs2 = apply_create(rs, desired_record(d), new_id);
    assert(rs2.drop_last() =~= rs);
    assert(rs2.last().name@ == name);
    assert(rs2.last().id == Some(new_id));
    let m2 = records_matching(rs2, d2.domain@);
    assert(d2.domain@ == name);
    assert(m2 == records_matching(rs, name).push(rs2.last()));
    assert(m2.len() == 1);
    assert(m2[0] == rs2.last());
}

} // verus!
