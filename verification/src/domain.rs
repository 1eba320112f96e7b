//! Apex-domain derivation.
//!
//! The apex domain of a fully-qualified name is the registrable root under
//! which the DNS provider keeps the zone. It is derived purely textually:
//! a name of at most two labels is its own apex; a longer name's apex is its
//! last two labels joined by `.`. Multi-label public suffixes (such as
//! `co.uk`) are deliberately not consulted, so for names under them the
//! derived apex is the suffix itself; this is a documented limitation.

use crate::text::{split_dots, split_labels};
use vstd::prelude::*;

verus! {

/// The apex domain of `s`: `s` itself when it has at most two labels, and
/// otherwise its last two labels joined by `.`.
pub open spec fn apex_of(s: Seq<char>) -> Seq<char> {
    let parts = split_dots(s);
    if parts.len() <= 2 {
        s
    } else {
        parts[parts.len() - 2] + seq!['.'] + parts[parts.len() - 1]
    }
}

/// Derives the apex domain of `name`, the name under which its zone is
/// registered with the provider.
pub fn root_domain_name(name: String) -> (r: String)
    ensures
        r@ == apex_of(name@),
{
    let labels = split_labels(name.as_str());
    if labels.len() <= 2 {
        name
    } else {
        let n = labels.len();
        let mut r = labels[n - 2].clone();
        r.append(".");
        r.append(labels[n - 1].as_str());
        proof {
            reveal_strlit(".");
            assert(labels.deep_view()[n - 2] == labels[n - 2 as int]@);
            assert(labels.deep_view()[n - 1] == labels[n - 1 as int]@);
            assert("."@ =~= seq!['.']);
        }
        r
    }
}

/// The apex derivation law: a name of at most two labels is its own apex,
/// and the apex of a longer name is its last two labels joined by `.`.
pub proof fn lemma_apex_derivation(s: Seq<char>)
    ensures
        split_dots(s).len() <= 2 ==> apex_of(s) == s,
        split_dots(s).len() > 2 ==> apex_of(s) == split_dots(s)[split_dots(s).len() - 2]
            + seq!['.'] + split_dots(s)[split_dots(s).len() - 1],
{
}

} // verus!
