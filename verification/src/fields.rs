//! Association lists of named field values.
//!
//! Both the raw front-matter block and the assembled content records are
//! sequences of `(name, value)` pairs looked up by name. The first occurrence
//! of a key wins; `pairs_map` gives the map such a sequence denotes, and the
//! executable lookup agrees with it.

use vstd::prelude::*;
use crate::strutil::str_eq;

verus! {

/// First-match lookup in a sequence of field pairs.
pub open spec fn pairs_lookup<T: View>(ps: Seq<(String, T)>, k: Seq<char>) -> Option<T::V>
    decreases ps.len(),
{
    if ps.len() == 0 {
        None
    } else if ps[0].0@ == k {
        Some(ps[0].1@)
    } else {
        pairs_lookup(ps.drop_first(), k)
    }
}

/// The map a sequence of field pairs denotes; the first occurrence of a key
/// wins, as in `pairs_lookup`.
pub open spec fn pairs_map<T: View>(ps: Seq<(String, T)>) -> Map<Seq<char>, T::V>
    decreases ps.len(),
{
    if ps.len() == 0 {
        Map::empty()
    } else {
        pairs_map(ps.drop_first()).insert(ps[0].0@, ps[0].1@)
    }
}

/// First-match lookup agrees with the denoted map.
pub proof fn lemma_pairs_lookup_map<T: View>(ps: Seq<(String, T)>, k: Seq<char>)
    ensures
        pairs_lookup(ps, k) == (if pairs_map(ps).contains_key(k) {
            Some(pairs_map(ps)[k])
        } else {
            None::<T::V>
        }),
    decreases ps.len(),
{
    if ps.len() == 0 {
    } else {
        lemma_pairs_lookup_map(ps.drop_first(), k);
    }
}

/// Appending a pair whose key is fresh adds it to the denoted map.
pub proof fn lemma_pairs_map_push<T: View>(ps: Seq<(String, T)>, p: (String, T))
    requires
        !pairs_map(ps).contains_key(p.0@),
    ensures
        pairs_map(ps.push(p)) == pairs_map(ps).insert(p.0@, p.1@),
    decreases ps.len(),
{
    if ps.len() == 0 {
        assert(ps.push(p)[0] == p);
        assert(ps.push(p).drop_first() =~= Seq::<(String, T)>::empty());
        assert(pairs_map(Seq::<(String, T)>::empty()) == Map::<Seq<char>, T::V>::empty());
        assert(pairs_map(ps.push(p)) == pairs_map(Seq::<(String, T)>::empty()).insert(
            p.0@,
            p.1@,
        ));
        assert(pairs_map(ps) == Map::<Seq<char>, T::V>::empty());
    } else {
        assert(ps.push(p).drop_first() =~= ps.drop_first().push(p));
        assert(pairs_map(ps.drop_first()).contains_key(p.0@) ==> pairs_map(ps).contains_key(p.0@));
        lemma_pairs_map_push(ps.drop_first(), p);
        assert(ps.push(p)[0] == ps[0]);
        assert(pairs_map(ps.push(p)) == pairs_map(ps.drop_first()).insert(p.0@, p.1@).insert(
            ps[0].0@,
            ps[0].1@,
        ));
        assert(pairs_map(ps.drop_first()).insert(p.0@, p.1@).insert(ps[0].0@, ps[0].1@)
            =~= pairs_map(ps.drop_first()).insert(ps[0].0@, ps[0].1@).insert(p.0@, p.1@));
    }
}

/// Finds the value of the named field, scanning front to back.
pub fn pairs_get<'a, T: View>(ps: &'a Vec<(String, T)>, name: &str) -> (r: Option<&'a T>)
    ensures
        match r {
            Some(v) => pairs_lookup(ps@, name@) == Some(v@),
            None => pairs_lookup(ps@, name@) is None,
        },
{
    let mut i: usize = 0;
    proof {
        assert(ps@.skip(0) =~= ps@);
    }
    while i < ps.len()
        invariant
            i <= ps@.len(),
            pairs_lookup(ps@, name@) == pairs_lookup(ps@.skip(i as int), name@),
        decreases ps@.len() - i,
    {
        proof {
            assert(ps@.skip(i as int)[0] == ps@[i as int]);
            assert(ps@.skip(i as int).drop_first() =~= ps@.skip(i + 1));
        }
        if str_eq(ps[i].0.as_str(), name) {
            return Some(&ps[i].1);
        }
        i = i + 1;
    }
    proof {
        assert(ps@.skip(ps@.len() as int).len() == 0);
    }
    None
}

} // verus!
