//! Splitting a name into its `.`-separated labels.
//!
//! Both the apex-domain derivation and the IPv4 parser work on the labels of
//! a string, so the split and its specification live here.

use vstd::prelude::*;

verus! {

/// The labels of `s` still to come, given that the characters of `cur` have
/// already been read as the beginning of the current label.
///
/// Splitting never yields an empty sequence: a string without any `.` is one
/// label, and every `.` ends one label and starts the next, so a string with
/// `k` dots has exactly `k + 1` labels (empty labels included).
pub open spec fn split_dots_rec(s: Seq<char>, cur: Seq<char>) -> Seq<Seq<char>>
    decreases s.len(),
{
    if s.len() == 0 {
        seq![cur]
    } else if s[0] == '.' {
        seq![cur] + split_dots_rec(s.skip(1), Seq::empty())
    } else {
        split_dots_rec(s.skip(1), cur.push(s[0]))
    }
}

/// The labels of `s`: the maximal runs of characters between dots, in order.
pub open spec fn split_dots(s: Seq<char>) -> Seq<Seq<char>> {
    split_dots_rec(s, Seq::empty())
}

/// Splits `s` on `.` into its labels.
pub fn split_labels(s: &str) -> (labels: Vec<String>)
    ensures
        labels.deep_view() == split_dots(s@),
        labels.len() >= 1,
{
    let n = s.unicode_len();
    let mut labels: Vec<String> = Vec::new();
    let mut start: usize = 0;
    let mut i: usize = 0;
    proof {
        assert(s@.skip(0) =~= s@);
        assert(s@.subrange(0, 0) =~= Seq::<char>::empty());
        assert(labels.deep_view() =~= Seq::<Seq<char>>::empty());
        assert(Seq::<Seq<char>>::empty() + split_dots(s@) =~= split_dots(s@));
    }
    while i < n
        invariant
            start <= i <= n,
            n == s@.len(),
            split_dots(s@) == labels.deep_view() + split_dots_rec(
                s@.skip(i as int),
                s@.subrange(start as int, i as int),
            ),
        decreases n - i,
    {
        let ghost rest = s@.skip(i as int);
        let ghost cur = s@.subrange(start as int, i as int);
        proof {
            assert(rest[0] == s@[i as int]);
            assert(rest.skip(1) =~= s@.skip(i as int + 1));
        }
        let c = s.get_char(i);
        if c == '.' {
            let label = s.substring_char(start, i).to_owned();
            let ghost old_deep = labels.deep_view();
            labels.push(label);
            proof {
                let tail = split_dots_rec(rest.skip(1), Seq::<char>::empty());
                assert(labels.deep_view() =~= old_deep.push(cur));
                assert(old_deep.push(cur) =~= old_deep + seq![cur]);
                assert(old_deep + (seq![cur] + tail) =~= (old_deep + seq![cur]) + tail);
                assert(s@.subrange(i as int + 1, i as int + 1) =~= Seq::<char>::empty());
            }
            start = i + 1;
        } else {
            proof {
                assert(s@.subrange(start as int, i as int + 1) =~= cur.push(s@[i as int]));
            }
        }
        i = i + 1;
    }
    let ghost cur_last = s@.subrange(start as int, n as int);
    proof {
        assert(s@.skip(n as int) =~= Seq::<char>::empty());
        assert(split_dots_rec(s@.skip(n as int), cur_last) == seq![cur_last]);
    }
    let last = s.substring_char(start, n).to_owned();
    let ghost old_deep = labels.deep_view();
    labels.push(last);
    proof {
        assert(labels.deep_view() =~= old_deep.push(cur_last));
        assert(old_deep.push(cur_last) =~= old_deep + seq![cur_last]);
        assert(labels.deep_view() =~= split_dots(s@));
    }
    labels
}

} // verus!
