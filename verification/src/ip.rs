//! Dotted-quad IPv4 literals.
//!
//! The public-IP service hands back the caller's address as plain text; that
//! body is untrusted and must parse as a dotted-quad IPv4 literal before it
//! is used. A literal is four labels separated by `.`, each a decimal octet:
//! one to three digits, no leading zero unless the octet is exactly `0`, and
//! a value of at most 255.

use crate::errors::DdnsError;
use crate::text::{split_dots, split_labels};
use vstd::prelude::*;

verus! {

/// An IPv4 address as its four dotted-quad octets.
#[derive(Clone, Copy, Debug, PartialEq, Eq, Structural)]
pub struct Ipv4 {
    pub a: u8,
    pub b: u8,
    pub c: u8,
    pub d: u8,
}

/// Whether `c` is a decimal digit.
pub open spec fn is_digit(c: char) -> bool {
    48 <= c as u32 <= 57
}

/// The value of the decimal digit `c`.
pub open spec fn digit_val(c: char) -> int {
    c as u32 - 48
}

/// The number denoted by the digit string `p`, read in base ten.
pub open spec fn octet_num(p: Seq<char>) -> int
    decreases p.len(),
{
    if p.len() == 0 {
        0
    } else {
        octet_num(p.drop_last()) * 10 + digit_val(p.last())
    }
}

/// Whether `p` is a well-formed decimal octet: one to three digits, no
/// leading zero unless `p` is exactly `0`, value at most 255.
pub open spec fn valid_octet(p: Seq<char>) -> bool {
    &&& 1 <= p.len() <= 3
    &&& forall|j: int| 0 <= j < p.len() ==> is_digit(#[trigger] p[j])
    &&& (p.len() > 1 ==> p[0] != '0')
    &&& octet_num(p) <= 255
}

/// The address denoted by `s`, or `None` when `s` is not a well-formed
/// dotted-quad IPv4 literal.
pub open spec fn parse_ipv4_spec(s: Seq<char>) -> Option<Ipv4> {
    let parts = split_dots(s);
    if parts.len() == 4 && valid_octet(parts[0]) && valid_octet(parts[1]) && valid_octet(
        parts[2],
    ) && valid_octet(parts[3]) {
        Some(
            Ipv4 {
                a: octet_num(parts[0]) as u8,
                b: octet_num(parts[1]) as u8,
                c: octet_num(parts[2]) as u8,
                d: octet_num(parts[3]) as u8,
            },
        )
    } else {
        None
    }
}

/// A digit string of at most three digits denotes a number below 1000.
proof fn lemma_octet_num_bounds(p: Seq<char>)
    requires
        forall|j: int| 0 <= j < p.len() ==> is_digit(#[trigger] p[j]),
    ensures
        0 <= octet_num(p),
        p.len() <= 1 ==> octet_num(p) <= 9,
        p.len() <= 2 ==> octet_num(p) <= 99,
        p.len() <= 3 ==> octet_num(p) <= 999,
    decreases p.len(),
{
    if p.len() > 0 {
        lemma_octet_num_bounds(p.drop_last());
    }
}

/// Parses one decimal octet label.
fn parse_octet(p: &str) -> (r: Option<u8>)
    ensures
        valid_octet(p@) ==> r == Some((octet_num(p@) as u8)),
        !valid_octet(p@) ==> r is None,
{
    let len = p.unicode_len();
    if len < 1 || len > 3 {
        return None;
    }
    if len > 1 && p.get_char(0) == '0' {
        return None;
    }
    let mut val: u32 = 0;
    let mut i: usize = 0;
    proof {
        assert(p@.subrange(0, 0) =~= Seq::<char>::empty());
    }
    while i < len
        invariant
            i <= len,
            len == p@.len(),
            1 <= len <= 3,
            forall|j: int| 0 <= j < i ==> is_digit(#[trigger] p@[j]),
            val == octet_num(p@.subrange(0, i as int)),
        decreases len - i,
    {
        let c = p.get_char(i);
        let cv = c as u32;
        if cv < 48 || cv > 57 {
            return None;
        }
        proof {
            lemma_octet_num_bounds(p@.subrange(0, i as int));
            assert(p@.subrange(0, i as int + 1).drop_last() =~= p@.subrange(0, i as int));
            assert(p@.subrange(0, i as int + 1).last() == p@[i as int]);
        }
        val = val * 10 + (cv - 48);
        i = i + 1;
    }
    proof {
        assert(p@.subrange(0, len as int) =~= p@);
    }
    if val > 255 {
        return None;
    }
    Some(val as u8)
}

/// Parses `s` as a dotted-quad IPv4 literal; a body that does not parse is a
/// `FormatError`, never a crash.
pub fn parse_ipv4(s: &str) -> (r: Result<Ipv4, DdnsError>)
    ensures
        parse_ipv4_spec(s@) is Some ==> r == Ok::<Ipv4, DdnsError>(parse_ipv4_spec(s@).unwrap()),
        parse_ipv4_spec(s@) is None ==> r == Err::<Ipv4, DdnsError>(DdnsError::FormatError),
{
    let labels = split_labels(s);
    if labels.len() != 4 {
        return Err(DdnsError::FormatError);
    }
    proof {
        assert(labels.deep_view()[0] == labels[0]@);
        assert(labels.deep_view()[1] == labels[1]@);
        assert(labels.deep_view()[2] == labels[2]@);
        assert(labels.deep_view()[3] == labels[3]@);
    }
    let oa = parse_octet(labels[0].as_str());
    let ob = parse_octet(labels[1].as_str());
    let oc = parse_octet(labels[2].as_str());
    let od = parse_octet(labels[3].as_str());
    match (oa, ob, oc, od) {
        (Some(a), Some(b), Some(c), Some(d)) => Ok(Ipv4 { a, b, c, d }),
        _ => Err(DdnsError::FormatError),
    }
}

} // verus!
