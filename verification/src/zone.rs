//! Zone location.
//!
//! The provider keeps records inside zones, one zone per apex domain. Given
//! the zones visible to the credentials, the locator selects the one whose
//! name exactly equals the apex of the configured name — no fuzzy or prefix
//! matching. Zero matches and more than one match both surface as
//! `NotFoundError` rather than being silently resolved: provider zone names
//! are expected unique, so a duplicate is itself worth failing on.

use crate::domain::{apex_of, root_domain_name};
use crate::errors::DdnsError;
use vstd::prelude::*;

verus! {

/// A DNS-provider-managed namespace for the records of one apex domain.
#[derive(Debug, PartialEq)]
pub struct Zone {
    /// The provider's opaque identifier for the zone.
    pub id: String,
    /// The apex domain the zone is registered under.
    pub name: String,
}

impl Clone for Zone {
    fn clone(&self) -> (r: Self)
        ensures
            r == *self,
    {
        Zone { id: self.id.clone(), name: self.name.clone() }
    }
}

/// The zones of `zs` whose name is exactly `name`, in listing order.
pub open spec fn zones_matching(zs: Seq<Zone>, name: Seq<char>) -> Seq<Zone>
    decreases zs.len(),
{
    if zs.len() == 0 {
        Seq::empty()
    } else {
        let rest = zones_matching(zs.drop_last(), name);
        if zs.last().name@ == name {
            rest.push(zs.last())
        } else {
            rest
        }
    }
}

/// Selects from `zones` the zone for `fqdn`: the unique zone whose name
/// equals the apex domain of `fqdn`. When no zone or more than one zone
/// matches, the lookup fails with `NotFoundError`.
pub fn locate_zone(zones: &Vec<Zone>, fqdn: &String) -> (r: Result<Zone, DdnsError>)
    ensures
        ({
            let ms = zones_matching(zones@, apex_of(fqdn@));
            match r {
                Ok(z) => ms.len() == 1 && z == ms[0],
                Err(e) => e == DdnsError::NotFoundError && ms.len() != 1,
            }
        }),
{
    let apex = root_domain_name(fqdn.clone());
    let mut count: usize = 0;
    let mut first: usize = 0;
    let mut i: usize = 0;
    proof {
        assert(zones@.subrange(0, 0) =~= Seq::<Zone>::empty());
    }
    while i < zones.len()
        invariant
            i <= zones@.len(),
            count <= i,
            apex@ == apex_of(fqdn@),
            count as int == zones_matching(zones@.subrange(0, i as int), apex@).len(),
            count >= 1 ==> first < i && zones_matching(zones@.subrange(0, i as int), apex@)[0]
                == zones@[first as int],
        decreases zones@.len() - i,
    {
        proof {
            assert(zones@.subrange(0, i as int + 1).drop_last() =~= zones@.subrange(0, i as int));
            assert(zones@.subrange(0, i as int + 1).last() == zones@[i as int]);
        }
        if zones[i].name == apex {
            if count == 0 {
                first = i;
            }
            count = count + 1;
        }
        i = i + 1;
    }
    proof {
        assert(zones@.subrange(0, zones@.len() as int) =~= zones@);
    }
    if count == 1 {
        Ok(zones[first].clone())
    } else {
        Err(DdnsError::NotFoundError)
    }
}

} // verus!
