//! Record reconciliation planning.
//!
//! Given the A records the provider currently lists under a name and the
//! desired state for that name, the planner decides the one API call that
//! brings the provider in line: a create when no record exists, an update
//! addressed by the existing record's id when exactly one does. The update
//! is issued regardless of whether any field actually differs — the
//! provider call is itself idempotent, so no local diffing is needed for
//! correctness. When more than one record matches the name, the state is
//! ambiguous and the planner refuses to guess which record is
//! authoritative.

use crate::errors::DdnsError;
use crate::ip::Ipv4;
use vstd::prelude::*;

verus! {

/// The provider's "automatic" TTL sentinel, the minimum value it accepts.
/// The TTL is not caller-configurable.
pub const TTL_AUTOMATIC: u32 = 1;

/// One DNS A record, the unit of reconciliation.
///
/// Only A records are in scope — the record maps a name to an IPv4 address
/// — so the record type is implicit and `content` holds the address itself.
/// `id` is `None` for a record not yet created and holds the provider's
/// opaque identifier once the record exists.
#[derive(Debug, PartialEq)]
pub struct DnsRecord {
    pub id: Option<String>,
    /// The fully-qualified name the record answers for.
    pub name: String,
    /// The IPv4 address the record points at.
    pub content: Ipv4,
    /// Whether the provider proxies traffic through its edge.
    pub proxied: bool,
    pub ttl: u32,
}

impl Clone for DnsRecord {
    fn clone(&self) -> (r: Self)
        ensures
            r == *self,
    {
        let id = match &self.id {
            Some(s) => Some(s.clone()),
            None => None,
        };
        DnsRecord {
            id,
            name: self.name.clone(),
            content: self.content,
            proxied: self.proxied,
            ttl: self.ttl,
        }
    }
}

/// What one reconciliation cycle wants the provider to hold, computed fresh
/// each cycle and never persisted.
#[derive(Debug, PartialEq)]
pub struct DesiredState {
    /// The fully-qualified name whose record is managed.
    pub domain: String,
    /// The host's current public IPv4 address.
    pub content: Ipv4,
    /// Whether the provider should proxy traffic to the record.
    pub proxied: bool,
}

impl Clone for DesiredState {
    fn clone(&self) -> (r: Self)
        ensures
            r == *self,
    {
        DesiredState { domain: self.domain.clone(), content: self.content, proxied: self.proxied }
    }
}

/// The one provider call a reconciliation cycle issues.
#[derive(Debug, PartialEq)]
pub enum RecordAction {
    /// No record exists under the desired name: create `record`.
    Create { record: DnsRecord },
    /// Exactly one record exists: update the record identified by `id` so
    /// its fields become those of `record`.
    Update { id: String, record: DnsRecord },
}

/// The records of `rs` whose name is exactly `name`, in listing order.
pub open spec fn records_matching(rs: Seq<DnsRecord>, name: Seq<char>) -> Seq<DnsRecord>
    decreases rs.len(),
{
    if rs.len() == 0 {
        Seq::empty()
    } else {
        let rest = records_matching(rs.drop_last(), name);
        if rs.last().name@ == name {
            rest.push(rs.last())
        } else {
            rest
        }
    }
}

/// The record that realises `d`: not yet created, automatic TTL.
pub open spec fn desired_record(d: DesiredState) -> DnsRecord {
    DnsRecord {
        id: None,
        name: d.domain,
        content: d.content,
        proxied: d.proxied,
        ttl: TTL_AUTOMATIC,
    }
}

/// Every record of a provider listing carries the provider's id: a record
/// only appears in a listing once it exists.
pub open spec fn listed_records_wf(rs: Seq<DnsRecord>) -> bool {
    forall|i: int| 0 <= i < rs.len() ==> (#[trigger] rs[i]).id is Some
}

/// The planning decision: create on zero matches, update the one existing
/// record on exactly one match, and refuse an ambiguous listing.
pub open spec fn plan_spec(rs: Seq<DnsRecord>, d: DesiredState) -> Result<RecordAction, DdnsError> {
    let m = records_matching(rs, d.domain@);
    if m.len() == 0 {
        Ok(RecordAction::Create { record: desired_record(d) })
    } else if m.len() == 1 {
        Ok(RecordAction::Update { id: m[0].id.unwrap(), record: desired_record(d) })
    } else {
        Err(DdnsError::AmbiguousStateError)
    }
}

/// Plans the call that reconciles the listed records `existing` with
/// `desired`. Exactly one record matching the desired name yields an update
/// addressed by that record's id; none yields a create; more than one is an
/// `AmbiguousStateError`, and no call at all is planned for it.
pub fn plan_reconcile(existing: &Vec<DnsRecord>, desired: &DesiredState) -> (r: Result<
    RecordAction,
    DdnsError,
>)
    requires
        listed_records_wf(existing@),
    ensures
        r == plan_spec(existing@, *desired),
        r == Err::<RecordAction, DdnsError>(DdnsError::AmbiguousStateError) <==> records_matching(
            existing@,
            desired.domain@,
        ).len() >= 2,
{
    let mut count: usize = 0;
    let mut first: usize = 0;
    let mut i: usize = 0;
    proof {
        assert(existing@.subrange(0, 0) =~= Seq::<DnsRecord>::empty());
    }
    while i < existing.len()
        invariant
            i <= existing@.len(),
            count <= i,
            count as int == records_matching(existing@.subrange(0, i as int), desired.domain@).len(),
            count >= 1 ==> first < i && records_matching(
                existing@.subrange(0, i as int),
                desired.domain@,
            )[0] == existing@[first as int],
        decreases existing@.len() - i,
    {
        proof {
            assert(existing@.subrange(0, i as int + 1).drop_last() =~= existing@.subrange(
                0,
                i as int,
            ));
            assert(existing@.subrange(0, i as int + 1).last() == existing@[i as int]);
        }
        if existing[i].name == desired.domain {
            if count == 0 {
                first = i;
            }
            count = count + 1;
        }
        i = i + 1;
    }
    proof {
        assert(existing@.subrange(0, existing@.len() as int) =~= existing@);
    }
    let record = DnsRecord {
        id: None,
        name: desired.domain.clone(),
        content: desired.content,
        proxied: desired.proxied,
        ttl: TTL_AUTOMATIC,
    };
    if count == 0 {
        Ok(RecordAction::Create { record })
    } else if count == 1 {
        let id = match &existing[first].id {
            Some(s) => s.clone(),
            None => vstd::pervasive::unreached(),
        };
        Ok(RecordAction::Update { id, record })
    } else {
        Err(DdnsError::AmbiguousStateError)
    }
}

} // verus!
