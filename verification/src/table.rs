//! Association lists of strings and the maps they denote.  Both the
//! image cache's table and the language-alias mappings store pairs in
//! insertion order and read them as a map in which a later pair for the
//! same key wins.

use vstd::prelude::*;

verus! {

/// The mapping denoted by a pair list; a later pair for the same key
/// wins.
pub open spec fn pairs_map(entries: Seq<(String, String)>) -> Map<Seq<char>, Seq<char>>
    decreases entries.len(),
{
    if entries.len() == 0 {
        Map::empty()
    } else {
        pairs_map(entries.drop_last()).insert(entries.last().0@, entries.last().1@)
    }
}

/// A key is in the map exactly when some pair holds it.
pub proof fn lemma_pairs_map_contains(entries: Seq<(String, String)>, k: Seq<char>)
    ensures
        pairs_map(entries).contains_key(k) <==> exists|i: int|
            0 <= i < entries.len() && entries[i].0@ == k,
    decreases entries.len(),
{
    if entries.len() > 0 {
        lemma_pairs_map_contains(entries.drop_last(), k);
        if entries.last().0@ == k {
            assert(entries[entries.len() - 1].0@ == k);
        } else if pairs_map(entries).contains_key(k) {
            let i = choose|i: int|
                0 <= i < entries.drop_last().len() && entries.drop_last()[i].0@ == k;
            assert(entries[i].0@ == k);
        } else {
            assert(forall|i: int|
                0 <= i < entries.drop_last().len() ==> entries.drop_last()[i].0@ != k);
            assert(forall|i: int| 0 <= i < entries.len() ==> entries[i].0@ != k) by {
                assert(forall|i: int|
                    0 <= i < entries.len() - 1 ==> entries[i].0@ == entries.drop_last()[i].0@);
            }
        }
    }
}

/// The last pair holding a key gives the map's value for it.
pub proof fn lemma_pairs_map_value(entries: Seq<(String, String)>, i: int)
    requires
        0 <= i < entries.len(),
        forall|j: int| i < j < entries.len() ==> entries[j].0@ != entries[i].0@,
    ensures
        pairs_map(entries).contains_key(entries[i].0@),
        pairs_map(entries)[entries[i].0@] == entries[i].1@,
    decreases entries.len(),
{
    if i == entries.len() - 1 {
    } else {
        assert(entries.drop_last()[i] == entries[i]);
        lemma_pairs_map_value(entries.drop_last(), i);
        assert(entries.last().0@ != entries[i].0@);
    }
}

} // verus!
