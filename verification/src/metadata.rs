//! Metadata entries and their normalisation into a mapping.
//!
//! The native side reports metadata as an ordered list of key/value pairs.
//! The facade hands it out as a mapping from key to value. Where a key occurs
//! more than once, the entry that comes last in the list decides its value.

use vstd::hash_map::StringHashMap;
use vstd::prelude::*;

verus! {

/// One key/value pair of metadata, as the boundary reports it.
#[derive(Debug)]
pub struct MetadataEntry {
    pub key: String,
    pub value: String,
}

impl View for MetadataEntry {
    type V = (Seq<char>, Seq<char>);

    open spec fn view(&self) -> (Seq<char>, Seq<char>) {
        (self.key@, self.value@)
    }
}

/// Metadata as the facade hands it out: a mapping from key to value.
pub type Metadata = StringHashMap<String>;

/// The entries of a list, each as a pair of texts.
pub open spec fn entries_view(entries: Seq<MetadataEntry>) -> Seq<(Seq<char>, Seq<char>)> {
    entries.map_values(|e: MetadataEntry| e@)
}

/// A metadata mapping with its values as texts.
pub open spec fn map_view(m: Metadata) -> Map<Seq<char>, Seq<char>> {
    m@.map_values(|v: String| v@)
}

/// The mapping that an ordered list of pairs stands for: the pairs are
/// entered in order, so a later pair replaces an earlier one with its key.
pub open spec fn normalized(entries: Seq<(Seq<char>, Seq<char>)>) -> Map<Seq<char>, Seq<char>>
    decreases entries.len(),
{
    if entries.len() == 0 {
        Map::empty()
    } else {
        normalized(entries.drop_last()).insert(entries.last().0, entries.last().1)
    }
}

/// Whether `i` is the last position in `entries` that holds `key`.
pub open spec fn is_last_with_key(
    entries: Seq<(Seq<char>, Seq<char>)>,
    key: Seq<char>,
    i: int,
) -> bool {
    &&& 0 <= i < entries.len()
    &&& entries[i].0 == key
    &&& forall|j: int| i < j < entries.len() ==> (#[trigger] entries[j]).0 != key
}

/// Normalises an ordered list of entries into a mapping from key to value.
pub fn entries_to_map(entries: Vec<MetadataEntry>) -> (m: Metadata)
    ensures
        map_view(m) == normalized(entries_view(entries@)),
{
    let ghost all = entries_view(entries@);
    let mut m: Metadata = StringHashMap::new();
    assert(map_view(m) =~= normalized(all.take(0)));
    for e in it: entries
        invariant
            all == entries_view(it.seq()),
            map_view(m) == normalized(all.take(it.index() as int)),
    {
        let ghost before = m@;
        let ghost i = it.index() as int;
        m.insert(e.key, e.value);
        proof {
            assert(all.take(i + 1).drop_last() =~= all.take(i));
            assert(all.take(i + 1).last() == all[i]);
            assert(map_view(m) =~= before.map_values(|v: String| v@).insert(e.key@, e.value@));
        }
    }
    assert(all.take(all.len() as int) =~= all);
    m
}

/// A key is in the mapping exactly when some entry of the list holds it.
pub proof fn lemma_normalized_domain(entries: Seq<(Seq<char>, Seq<char>)>, key: Seq<char>)
    ensures
        normalized(entries).contains_key(key) <==> exists|i: int|
            0 <= i < entries.len() && (#[trigger] entries[i]).0 == key,
    decreases entries.len(),
{
    if entries.len() > 0 {
        let front = entries.drop_last();
        lemma_normalized_domain(front, key);
        if normalized(entries).contains_key(key) {
            if entries.last().0 == key {
                assert(entries[entries.len() - 1].0 == key);
            } else {
                let i = choose|i: int| 0 <= i < front.len() && (#[trigger] front[i]).0 == key;
                assert(entries[i].0 == key);
            }
        }
        if exists|i: int| 0 <= i < entries.len() && (#[trigger] entries[i]).0 == key {
            let i = choose|i: int| 0 <= i < entries.len() && (#[trigger] entries[i]).0 == key;
            if i < entries.len() - 1 {
                assert(front[i].0 == key);
            }
        }
    }
}

/// Every key that the list holds is a key of the mapping: normalising drops
/// no key.
pub proof fn lemma_every_key_is_kept(entries: Seq<(Seq<char>, Seq<char>)>, i: int)
    requires
        0 <= i < entries.len(),
    ensures
        normalized(entries).contains_key(entries[i].0),
{
    lemma_normalized_domain(entries, entries[i].0);
}

/// Where a key occurs more than once, the last entry that holds it decides
/// the value that the mapping gives for it.
pub proof fn lemma_last_write_wins(entries: Seq<(Seq<char>, Seq<char>)>, key: Seq<char>, i: int)
    requires
        is_last_with_key(entries, key, i),
    ensures
        normalized(entries).contains_key(key),
        normalized(entries)[key] == entries[i].1,
    decreases entries.len(),
{
    let front = entries.drop_last();
    if i < entries.len() - 1 {
        assert(entries[entries.len() - 1].0 != key);
        assert forall|j: int| i < j < front.len() implies (#[trigger] front[j]).0 != key by {
            assert(entries[j].0 != key);
        }
        lemma_last_write_wins(front, key, i);
    }
}

} // verus!
