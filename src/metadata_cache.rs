//! The in-memory map from crate name to what is known of its index entry.

use vstd::prelude::*;

use crate::index_entry::{IndexEntry, IndexEntryView};

verus! {

/// No two entries share a crate name.
pub open spec fn names_unique(s: Seq<IndexEntryView>) -> bool {
    forall|i: int, j: int|
        0 <= i < s.len() && 0 <= j < s.len() && i != j ==> #[trigger] s[i].name != #[trigger] s[j].name
}

/// Whether some entry of `s` has the crate name `n`.
pub open spec fn names_holds(s: Seq<IndexEntryView>, n: Seq<char>) -> bool {
    exists|i: int| 0 <= i < s.len() && #[trigger] s[i].name == n
}

/// The map from crate name to entry that a sequence of entries with distinct
/// names stands for.
pub open spec fn map_of(s: Seq<IndexEntryView>) -> Map<Seq<char>, IndexEntryView> {
    Map::new(
        |n: Seq<char>| names_holds(s, n),
        |n: Seq<char>| s[choose|i: int| 0 <= i < s.len() && #[trigger] s[i].name == n],
    )
}

proof fn lemma_map_of_at(s: Seq<IndexEntryView>, j: int)
    requires
        names_unique(s),
        0 <= j < s.len(),
    ensures
        map_of(s).contains_key(s[j].name),
        map_of(s)[s[j].name] == s[j],
{
    let n = s[j].name;
    assert(names_holds(s, n));
    let k = choose|i: int| 0 <= i < s.len() && #[trigger] s[i].name == n;
    assert(k == j);
}

/// Removing the entry at `i` removes its name from the map.
proof fn lemma_map_of_remove(s: Seq<IndexEntryView>, i: int)
    requires
        names_unique(s),
        0 <= i < s.len(),
    ensures
        names_unique(s.remove(i)),
        map_of(s.remove(i)) == map_of(s).remove(s[i].name),
{
    let t = s.remove(i);
    assert forall|a: int, b: int|
        0 <= a < t.len() && 0 <= b < t.len() && a != b implies #[trigger] t[a].name
        != #[trigger] t[b].name by {
        let a2 = if a < i { a } else { a + 1 };
        let b2 = if b < i { b } else { b + 1 };
        assert(t[a] == s[a2] && t[b] == s[b2]);
    }
    assert forall|n: Seq<char>| #[trigger] map_of(t).contains_key(n) <==> map_of(s).remove(
        s[i].name,
    ).contains_key(n) by {
        if names_holds(t, n) {
            let a = choose|a: int| 0 <= a < t.len() && #[trigger] t[a].name == n;
            let a2 = if a < i { a } else { a + 1 };
            assert(s[a2].name == n);
            assert(a2 != i);
        }
        if names_holds(s, n) && n != s[i].name {
            let a = choose|a: int| 0 <= a < s.len() && #[trigger] s[a].name == n;
            let a1 = if a < i { a } else { a - 1 };
            assert(t[a1].name == n);
        }
    }
    assert forall|n: Seq<char>| #[trigger] map_of(t).contains_key(n) implies map_of(t)[n] == map_of(
        s,
    )[n] by {
        let a = choose|a: int| 0 <= a < t.len() && #[trigger] t[a].name == n;
        let a2 = if a < i { a } else { a + 1 };
        assert(t[a] == s[a2]);
        lemma_map_of_at(t, a);
        lemma_map_of_at(s, a2);
    }
    assert(map_of(t) =~= map_of(s).remove(s[i].name));
}

/// Appending an entry whose name is new adds it to the map.
proof fn lemma_map_of_push(s: Seq<IndexEntryView>, e: IndexEntryView)
    requires
        names_unique(s),
        !names_holds(s, e.name),
    ensures
        names_unique(s.push(e)),
        map_of(s.push(e)) == map_of(s).insert(e.name, e),
{
    let t = s.push(e);
    assert forall|a: int, b: int|
        0 <= a < t.len() && 0 <= b < t.len() && a != b implies #[trigger] t[a].name
        != #[trigger] t[b].name by {
        if a == s.len() {
            assert(s[b].name == t[b].name);
        } else if b == s.len() {
            assert(s[a].name == t[a].name);
        } else {
            assert(t[a] == s[a] && t[b] == s[b]);
        }
    }
    assert forall|n: Seq<char>| #[trigger] map_of(t).contains_key(n) <==> map_of(s).insert(
        e.name,
        e,
    ).contains_key(n) by {
        if names_holds(t, n) && n != e.name {
            let a = choose|a: int| 0 <= a < t.len() && #[trigger] t[a].name == n;
            assert(s[a].name == n);
        }
        if names_holds(s, n) {
            let a = choose|a: int| 0 <= a < s.len() && #[trigger] s[a].name == n;
            assert(t[a].name == n);
        }
        if n == e.name {
            assert(t[s.len() as int].name == n);
        }
    }
    assert forall|n: Seq<char>| #[trigger] map_of(t).contains_key(n) implies map_of(t)[n] == map_of(
        s,
    ).insert(e.name, e)[n] by {
        let a = choose|a: int| 0 <= a < t.len() && #[trigger] t[a].name == n;
        lemma_map_of_at(t, a);
        if a < s.len() {
            assert(t[a] == s[a]);
            lemma_map_of_at(s, a);
        }
    }
    assert(map_of(t) =~= map_of(s).insert(e.name, e));
}

/// The index entries seen so far, keyed by crate name.
pub struct MetadataCache {
    entries: Vec<IndexEntry>,
}

/// The position of the entry for the crate `name` in `entries`, if there is one.
fn position(entries: &Vec<IndexEntry>, name: &String) -> (r: Option<usize>)
    ensures
        r matches Some(i) ==> i < entries@.len() && entries@[i as int]@.name == name@,
        r is None ==> forall|j: int| 0 <= j < entries@.len() ==> #[trigger] entries@[j]@.name != name@,
{
    let mut i: usize = 0;
    while i < entries.len()
        invariant
            i <= entries@.len(),
            forall|j: int| 0 <= j < i ==> #[trigger] entries@[j]@.name != name@,
        decreases entries@.len() - i,
    {
        if entries[i].has_name(name) {
            return Some(i);
        }
        i = i + 1;
    }
    None
}

impl MetadataCache {
    /// The views of the entries held, in storage order.
    pub closed spec fn entry_views(&self) -> Seq<IndexEntryView> {
        self.entries@.map_values(|e: IndexEntry| e@)
    }

    /// No two entries held share a crate name.
    pub closed spec fn wf(&self) -> bool {
        names_unique(self.entry_views())
    }

    /// An empty cache.
    pub fn new() -> (r: MetadataCache)
        ensures
            r.wf(),
            r@ == Map::<Seq<char>, IndexEntryView>::empty(),
    {
        let r = MetadataCache { entries: Vec::new() };
        assert(r@ =~= Map::<Seq<char>, IndexEntryView>::empty());
        r
    }
}

impl View for MetadataCache {
    type V = Map<Seq<char>, IndexEntryView>;

    closed spec fn view(&self) -> Map<Seq<char>, IndexEntryView> {
        map_of(self.entry_views())
    }
}

/// Stores `entry` under its crate name, replacing what was stored there.
pub fn metadata_store_index_entry(cache: &mut MetadataCache, entry: &IndexEntry)
    requires
        old(cache).wf(),
    ensures
        final(cache).wf(),
        final(cache)@ == old(cache)@.insert(entry@.name, entry@),
{
    let name = entry.name().to_owned();
    let ghost s0 = cache.entry_views();
    let ghost kept: Seq<IndexEntryView>;
    match position(&cache.entries, &name) {
        Some(i) => {
            cache.entries.remove(i);
            proof {
                kept = s0.remove(i as int);
                assert(cache.entry_views() =~= kept);
                lemma_map_of_remove(s0, i as int);
                assert(s0[i as int].name == entry@.name);
            }
        },
        None => {
            proof {
                kept = s0;
            }
        },
    }
    proof {
        assert(!names_holds(kept, entry@.name)) by {
            if names_holds(kept, entry@.name) {
                let a = choose|a: int| 0 <= a < kept.len() && #[trigger] kept[a].name == entry@.name;
                assert(map_of(kept).contains_key(entry@.name));
            }
        }
        lemma_map_of_push(kept, entry@);
        assert(map_of(kept).insert(entry@.name, entry@) =~= map_of(s0).insert(entry@.name, entry@));
    }
    cache.entries.push(entry.clone());
    assert(cache.entry_views() =~= kept.push(entry@));
}

/// A copy of the entry stored for the crate `name`, if there is one.
pub fn metadata_fetch_index_entry(cache: &MetadataCache, name: &str) -> (r: Option<IndexEntry>)
    requires
        cache.wf(),
    ensures
        r matches Some(e) ==> cache@.contains_key(name@) && e@ == cache@[name@],
        r is None ==> !cache@.contains_key(name@),
{
    let name = name.to_owned();
    match position(&cache.entries, &name) {
        Some(i) => {
            proof {
                lemma_map_of_at(cache.entry_views(), i as int);
            }
            Some(cache.entries[i].clone())
        },
        None => {
            assert(!names_holds(cache.entry_views(), name@));
            None
        },
    }
}

/// Forgets what is stored for the crate of `entry`.
pub fn metadata_invalidate_index_entry(cache: &mut MetadataCache, entry: &IndexEntry)
    requires
        old(cache).wf(),
    ensures
        final(cache).wf(),
        final(cache)@ == old(cache)@.remove(entry@.name),
{
    let name = entry.name().to_owned();
    let ghost s0 = cache.entry_views();
    match position(&cache.entries, &name) {
        Some(i) => {
            cache.entries.remove(i);
            proof {
                assert(cache.entry_views() =~= s0.remove(i as int));
                lemma_map_of_remove(s0, i as int);
            }
        },
        None => {
            assert(!names_holds(s0, name@));
            assert(map_of(s0).remove(name@) =~= map_of(s0));
        },
    }
}

} // verus!
