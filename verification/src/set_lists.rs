//! Lists keyed by descriptor set number, in an ordered map from set numbers to lists.
use std::collections::BTreeMap;
use vstd::prelude::*;
use vstd::std_specs::iter::IteratorSpec;

verus! {

/// The lists of a map, each taken by its view.
pub open spec fn lists_view<T>(m: Map<u32, Vec<T>>) -> Map<u32, Seq<T>> {
    m.map_values(|v: Vec<T>| v@)
}

/// The keys of `s` increase strictly from entry to entry.
pub open spec fn keys_increasing<V>(s: Seq<(u32, V)>) -> bool {
    forall|i: int, j: int| 0 <= i < j < s.len() ==> #[trigger] s[i].0 < #[trigger] s[j].0
}

/// The entries with each list taken by its view.
pub open spec fn entries_view<T>(s: Seq<(u32, Vec<T>)>) -> Seq<(u32, Seq<T>)> {
    s.map_values(|e: (u32, Vec<T>)| (e.0, e.1@))
}

/// `entries` lists the entries of `m` in increasing key order: each once, nothing else.
pub open spec fn lists_in_key_order<T>(entries: Seq<(u32, Seq<T>)>, m: Map<u32, Seq<T>>) -> bool {
    &&& keys_increasing(entries)
    &&& forall|i: int| 0 <= i < entries.len() ==> #[trigger] m.contains_key(entries[i].0) && m[entries[i].0] == entries[i].1
    &&& forall|k: u32| #[trigger] m.contains_key(k) ==> exists|i: int| 0 <= i < entries.len() && #[trigger] entries[i].0 == k
}

/// The list under `k`, or the empty list where `k` has none.
pub open spec fn list_or_empty<T>(m: Map<u32, Seq<T>>, k: u32) -> Seq<T> {
    if m.contains_key(k) {
        m[k]
    } else {
        Seq::empty()
    }
}

/// The keys of `m` in increasing order, once each.
pub fn sorted_keys<T>(m: &BTreeMap<u32, Vec<T>>) -> (keys: Vec<u32>)
    ensures
        keys@.to_set() == m@.dom(),
        keys@.no_duplicates(),
        forall|i: int, j: int| 0 <= i < j < keys@.len() ==> keys@[i] < keys@[j],
{
    broadcast use vstd::std_specs::btree::group_btree_axioms;

    let mut keys: Vec<u32> = Vec::new();
    for k in it: m.keys()
        invariant
            keys@ == it.seq().take(it.index() as int).map_values(|r: &u32| *r),
            it.seq() == vstd::std_specs::btree::spec_keys_iter(m).remaining(),
    {
        keys.push(*k);
    }
    proof {
        let s = vstd::std_specs::btree::spec_keys_iter(m).remaining();
        assert(s.take(s.len() as int) =~= s);
        assert(keys@ =~= s.unref());
        lemma_refs_increasing(s);
    }
    keys
}

/// Keys the ordered map walks in increasing order do increase.
proof fn lemma_refs_increasing(s: Seq<&u32>)
    requires
        vstd::std_specs::btree::increasing_seq(s),
    ensures
        forall|i: int, j: int| 0 <= i < j < s.len() ==> *s[i] < *s[j],
{
    broadcast use vstd::laws_cmp::group_laws_cmp;
    broadcast use vstd::std_specs::btree::group_btree_axioms;

    assert(vstd::laws_cmp::obeys_cmp::<u32>());
    assert(vstd::laws_cmp::obeys_cmp::<&u32>());
    assert forall|i: int, j: int| 0 <= i < j < s.len() implies *s[i] < *s[j] by {
        assert(vstd::std_specs::cmp::OrdSpec::cmp_spec(&s[i], &s[j]) is Less);
        assert(vstd::std_specs::cmp::OrdSpec::cmp_spec(s[i], s[j]) is Less);
    }
}

/// Takes the list under `k` out of `m`.
pub fn take_list<T>(m: &mut BTreeMap<u32, Vec<T>>, k: u32) -> (list: Option<Vec<T>>)
    ensures
        final(m)@ == old(m)@.remove(k),
        list == old(m)@.get(k),
{
    broadcast use vstd::std_specs::btree::group_btree_axioms;

    m.remove(&k)
}

/// Puts `list` under `k`.
pub fn put_list<T>(m: &mut BTreeMap<u32, Vec<T>>, k: u32, list: Vec<T>)
    ensures
        final(m)@ == old(m)@.insert(k, list),
{
    broadcast use vstd::std_specs::btree::group_btree_axioms;

    m.insert(k, list);
}

/// Appends `list` to the list under `k`, starting from an empty one.
pub fn append_list<T>(m: &mut BTreeMap<u32, Vec<T>>, k: u32, list: Vec<T>)
    ensures
        lists_view(final(m)@) == lists_view(old(m)@).insert(k, list_or_empty(lists_view(old(m)@), k) + list@),
{
    let mut list = list;
    let mut merged = match take_list(m, k) {
        Some(l) => l,
        None => Vec::new(),
    };
    let ghost first = merged@;
    let ghost added = list@;
    merged.append(&mut list);
    put_list(m, k, merged);
    proof {
        assert(lists_view(m@) =~= lists_view(old(m)@).insert(k, list_or_empty(lists_view(old(m)@), k) + added)) by {
            assert(list_or_empty(lists_view(old(m)@), k) == first);
        }
    }
}

/// The entries of `m`, in increasing key order; the map is emptied.
pub fn into_sorted_entries<T>(m: BTreeMap<u32, Vec<T>>) -> (entries: Vec<(u32, Vec<T>)>)
    ensures
        lists_in_key_order(entries_view(entries@), lists_view(m@)),
{
    let ghost start = m@;
    let keys = sorted_keys(&m);
    let mut m = m;
    let mut entries: Vec<(u32, Vec<T>)> = Vec::new();
    let mut i: usize = 0;
    while i < keys.len()
        invariant
            i <= keys@.len(),
            keys@.to_set() == start.dom(),
            keys@.no_duplicates(),
            forall|a: int, b: int| 0 <= a < b < keys@.len() ==> keys@[a] < keys@[b],
            entries@.len() == i,
            forall|a: int| 0 <= a < i ==> (#[trigger] entries@[a]).0 == keys@[a] && entries@[a].1 == start[keys@[a]],
            forall|k: u32| #[trigger] m@.contains_key(k) <==> start.contains_key(k) && !keys@.take(i as int).contains(k),
            forall|k: u32| #[trigger] m@.contains_key(k) ==> m@[k] == start[k],
        decreases keys@.len() - i,
    {
        let k = keys[i];
        assert(keys@.to_set().contains(k));
        assert(!keys@.take(i as int).contains(k)) by {
            if keys@.take(i as int).contains(k) {
                let a = choose|a: int| 0 <= a < i && #[trigger] keys@.take(i as int)[a] == k;
                assert(keys@[a] == keys@[i as int]);
            }
        }
        let ghost before = m@;
        let list = match take_list(&mut m, k) {
            Some(l) => l,
            None => Vec::new(),
        };
        entries.push((k, list));
        proof {
            assert forall|key: u32| #[trigger] m@.contains_key(key) <==> start.contains_key(key) && !keys@.take(i + 1).contains(key) by {
                if keys@.take(i + 1).contains(key) && key != k {
                    let a = choose|a: int| 0 <= a < i + 1 && #[trigger] keys@.take(i + 1)[a] == key;
                    assert(keys@.take(i as int)[a] == key);
                }
                if keys@.take(i as int).contains(key) {
                    let a = choose|a: int| 0 <= a < i && #[trigger] keys@.take(i as int)[a] == key;
                    assert(keys@.take(i + 1)[a] == key);
                }
                assert(keys@.take(i + 1)[i as int] == k);
            }
        }
        i += 1;
    }
    proof {
        let ev = entries_view(entries@);
        let lv = lists_view(start);
        assert forall|a: int, b: int| 0 <= a < b < ev.len() implies #[trigger] ev[a].0 < #[trigger] ev[b].0 by {
            assert(keys@[a] < keys@[b]);
        }
        assert forall|a: int| 0 <= a < ev.len() implies #[trigger] lv.contains_key(ev[a].0) && lv[ev[a].0] == ev[a].1 by {
            assert(keys@.to_set().contains(keys@[a]));
        }
        assert forall|k: u32| #[trigger] lv.contains_key(k) implies exists|a: int| 0 <= a < ev.len() && #[trigger] ev[a].0 == k by {
            assert(keys@.to_set().contains(k));
            let a = choose|a: int| 0 <= a < keys@.len() && keys@[a] == k;
            assert(ev[a].0 == k);
        }
    }
    entries
}

} // verus!
