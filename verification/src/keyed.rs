//! Association lists read as maps: a list of `(key, value)` entries stands for
//! the map in which a later entry wins over an earlier one with the same key.

use vstd::prelude::*;
use crate::text::str_eq;

verus! {

/// The map that a list of entries stands for.
pub open spec fn keyed<V>(s: Seq<(Seq<char>, V)>) -> Map<Seq<char>, V>
    decreases s.len(),
{
    if s.len() == 0 {
        Map::empty()
    } else {
        keyed(s.drop_last()).insert(s.last().0, s.last().1)
    }
}

/// No key occurs twice in the list.
pub open spec fn distinct_keys<V>(s: Seq<(Seq<char>, V)>) -> bool {
    forall|i: int, j: int| 0 <= i < j < s.len() ==> #[trigger] s[i].0 != #[trigger] s[j].0
}

/// The keys of a list, as a set.
pub open spec fn key_set<V>(s: Seq<(Seq<char>, V)>) -> Set<Seq<char>> {
    Set::new(|k: Seq<char>| exists|i: int| 0 <= i < s.len() && #[trigger] s[i].0 == k)
}

/// The map holds exactly the keys of the list, and a finite domain.
pub proof fn lemma_keyed_dom<V>(s: Seq<(Seq<char>, V)>)
    ensures
        keyed(s).dom() == key_set(s),
        keyed(s).dom().finite(),
    decreases s.len(),
{
    if s.len() == 0 {
        assert(key_set(s) =~= Set::empty());
    } else {
        let d = s.drop_last();
        lemma_keyed_dom(d);
        assert forall|k: Seq<char>| key_set(s).contains(k) implies #[trigger] keyed(s).dom().contains(k) by {
            let i = choose|i: int| 0 <= i < s.len() && #[trigger] s[i].0 == k;
            if i < s.len() - 1 {
                assert(d[i].0 == k);
                assert(key_set(d).contains(k));
            }
        }
        assert forall|k: Seq<char>| #[trigger] keyed(s).dom().contains(k) implies key_set(s).contains(k) by {
            if k == s.last().0 {
                assert(s[s.len() - 1].0 == k);
            } else {
                assert(key_set(d).contains(k));
                let i = choose|i: int| 0 <= i < d.len() && #[trigger] d[i].0 == k;
                assert(s[i].0 == k);
            }
        }
        assert(keyed(s).dom() =~= key_set(s));
    }
}

/// A key that no entry holds is not in the map.
pub proof fn lemma_keyed_absent<V>(s: Seq<(Seq<char>, V)>, k: Seq<char>)
    requires
        forall|i: int| 0 <= i < s.len() ==> #[trigger] s[i].0 != k,
    ensures
        !keyed(s).dom().contains(k),
    decreases s.len(),
{
    if s.len() > 0 {
        let d = s.drop_last();
        assert forall|i: int| 0 <= i < d.len() implies #[trigger] d[i].0 != k by {
            assert(d[i] == s[i]);
        }
        lemma_keyed_absent(d, k);
        assert(s[s.len() - 1].0 != k);
    }
}

/// With distinct keys, the map sends each entry's key to that entry's value.
pub proof fn lemma_keyed_index<V>(s: Seq<(Seq<char>, V)>, i: int)
    requires
        distinct_keys(s),
        0 <= i < s.len(),
    ensures
        keyed(s).dom().contains(s[i].0),
        keyed(s)[s[i].0] == s[i].1,
    decreases s.len(),
{
    if i < s.len() - 1 {
        let d = s.drop_last();
        assert(d[i] == s[i]);
        assert(distinct_keys(d)) by {
            assert forall|a: int, b: int| 0 <= a < b < d.len() implies #[trigger] d[a].0 != #[trigger] d[b].0 by {
                assert(d[a] == s[a] && d[b] == s[b]);
            }
        }
        lemma_keyed_index(d, i);
        assert(s[i].0 != s[s.len() - 1].0);
    }
}

/// Appending an entry inserts it.
pub proof fn lemma_keyed_push<V>(s: Seq<(Seq<char>, V)>, k: Seq<char>, v: V)
    ensures
        keyed(s.push((k, v))) == keyed(s).insert(k, v),
{
    assert(s.push((k, v)).drop_last() =~= s);
}

/// Appending an entry whose key is new keeps the keys distinct.
pub proof fn lemma_distinct_push<V>(s: Seq<(Seq<char>, V)>, k: Seq<char>, v: V)
    requires
        distinct_keys(s),
        forall|i: int| 0 <= i < s.len() ==> #[trigger] s[i].0 != k,
    ensures
        distinct_keys(s.push((k, v))),
{
    let t = s.push((k, v));
    assert forall|a: int, b: int| 0 <= a < b < t.len() implies #[trigger] t[a].0 != #[trigger] t[b].0 by {
        if b < s.len() {
            assert(t[a] == s[a] && t[b] == s[b]);
        } else {
            assert(t[a] == s[a]);
        }
    }
}

/// Replacing the value of an entry, with distinct keys, sets that key in the map.
pub proof fn lemma_keyed_update<V>(s: Seq<(Seq<char>, V)>, i: int, v: V)
    requires
        distinct_keys(s),
        0 <= i < s.len(),
    ensures
        keyed(s.update(i, (s[i].0, v))) == keyed(s).insert(s[i].0, v),
        distinct_keys(s.update(i, (s[i].0, v))),
    decreases s.len(),
{
    let k = s[i].0;
    let t = s.update(i, (k, v));
    let d = s.drop_last();
    assert(distinct_keys(d)) by {
        assert forall|a: int, b: int| 0 <= a < b < d.len() implies #[trigger] d[a].0 != #[trigger] d[b].0 by {
            assert(d[a] == s[a] && d[b] == s[b]);
        }
    }
    if i == s.len() - 1 {
        assert(t.drop_last() =~= d);
        assert(keyed(t) =~= keyed(s).insert(k, v));
    } else {
        assert(d[i] == s[i]);
        lemma_keyed_update(d, i, v);
        assert(t.drop_last() =~= d.update(i, (k, v)));
        assert(s.last().0 != k);
        assert(keyed(t) =~= keyed(s).insert(k, v));
    }
    assert forall|a: int, b: int| 0 <= a < b < t.len() implies #[trigger] t[a].0 != #[trigger] t[b].0 by {
        assert(t[a].0 == s[a].0 && t[b].0 == s[b].0);
    }
}

/// Removing an entry, with distinct keys, removes its key from the map.
pub proof fn lemma_keyed_remove<V>(s: Seq<(Seq<char>, V)>, i: int)
    requires
        distinct_keys(s),
        0 <= i < s.len(),
    ensures
        keyed(s.remove(i)) == keyed(s).remove(s[i].0),
        distinct_keys(s.remove(i)),
    decreases s.len(),
{
    let k = s[i].0;
    let t = s.remove(i);
    let d = s.drop_last();
    assert(distinct_keys(d)) by {
        assert forall|a: int, b: int| 0 <= a < b < d.len() implies #[trigger] d[a].0 != #[trigger] d[b].0 by {
            assert(d[a] == s[a] && d[b] == s[b]);
        }
    }
    if i == s.len() - 1 {
        assert(t =~= d);
        assert forall|j: int| 0 <= j < d.len() implies #[trigger] d[j].0 != k by {
            assert(d[j] == s[j]);
        }
        lemma_keyed_absent(d, k);
        assert(keyed(t) =~= keyed(s).remove(k));
    } else {
        assert(d[i] == s[i]);
        lemma_keyed_remove(d, i);
        assert(t.drop_last() =~= d.remove(i));
        assert(t.last() == s.last());
        assert(s.last().0 != k);
        assert(keyed(t) =~= keyed(s).remove(k));
    }
    assert forall|a: int, b: int| 0 <= a < b < t.len() implies #[trigger] t[a].0 != #[trigger] t[b].0 by {
        if a < i {
            if b < i {
                assert(t[a] == s[a] && t[b] == s[b]);
            } else {
                assert(t[a] == s[a] && t[b] == s[b + 1]);
            }
        } else {
            assert(t[a] == s[a + 1] && t[b] == s[b + 1]);
        }
    }
}

/// A list of entries keyed by strings, read with the keys' characters.
pub open spec fn raw_entries<V>(s: Seq<(String, V)>) -> Seq<(Seq<char>, V)> {
    s.map_values(|e: (String, V)| (e.0@, e.1))
}

/// The index of the entry under `key`, if any.
pub fn find_key<V>(entries: &Vec<(String, V)>, key: &str) -> (r: Option<usize>)
    ensures
        match r {
            Some(i) => i < entries@.len() && entries@[i as int].0@ == key@,
            None => forall|i: int| 0 <= i < entries@.len() ==> #[trigger] entries@[i].0@ != key@,
        },
{
    let mut i: usize = 0;
    while i < entries.len()
        invariant
            i <= entries@.len(),
            forall|j: int| 0 <= j < i ==> #[trigger] entries@[j].0@ != key@,
        decreases entries@.len() - i,
    {
        if str_eq(entries[i].0.as_str(), key) {
            return Some(i);
        }
        i = i + 1;
    }
    None
}

/// Store `value` under `key`, replacing the entry there if any.
pub fn set_entry<V>(entries: &mut Vec<(String, V)>, key: &str, value: V)
    requires
        distinct_keys(raw_entries(old(entries)@)),
    ensures
        distinct_keys(raw_entries(final(entries)@)),
        keyed(raw_entries(final(entries)@)) == keyed(raw_entries(old(entries)@)).insert(key@, value),
{
    let ghost v = value;
    match find_key(entries, key) {
        Some(i) => {
            proof { lemma_keyed_update(raw_entries(entries@), i as int, v); }
            entries.set(i, (key.to_owned(), value));
            assert(raw_entries(entries@) =~= raw_entries(old(entries)@).update(i as int, (key@, v)));
        },
        None => {
            proof {
                lemma_keyed_push(raw_entries(entries@), key@, v);
                lemma_distinct_push(raw_entries(entries@), key@, v);
            }
            entries.push((key.to_owned(), value));
            assert(raw_entries(entries@) =~= raw_entries(old(entries)@).push((key@, v)));
        },
    }
}

/// Remove the entry under `key`, handing back its value.
pub fn remove_entry<V>(entries: &mut Vec<(String, V)>, key: &str) -> (r: Option<V>)
    requires
        distinct_keys(raw_entries(old(entries)@)),
    ensures
        distinct_keys(raw_entries(final(entries)@)),
        keyed(raw_entries(final(entries)@)) == keyed(raw_entries(old(entries)@)).remove(key@),
        match r {
            Some(v) => keyed(raw_entries(old(entries)@)).dom().contains(key@)
                && keyed(raw_entries(old(entries)@))[key@] == v,
            None => !keyed(raw_entries(old(entries)@)).dom().contains(key@),
        },
{
    match find_key(entries, key) {
        Some(i) => {
            proof {
                lemma_keyed_index(raw_entries(entries@), i as int);
                lemma_keyed_remove(raw_entries(entries@), i as int);
            }
            let (_, v) = entries.remove(i);
            assert(raw_entries(entries@) =~= raw_entries(old(entries)@).remove(i as int));
            Some(v)
        },
        None => {
            proof { lemma_keyed_absent(raw_entries(entries@), key@); }
            assert(keyed(raw_entries(old(entries)@)).remove(key@) =~= keyed(raw_entries(old(entries)@)));
            None
        },
    }
}

/// The value under `key`, borrowed.
pub fn get_entry<'a, V>(entries: &'a Vec<(String, V)>, key: &str) -> (r: Option<&'a V>)
    requires
        distinct_keys(raw_entries(entries@)),
    ensures
        match r {
            Some(v) => keyed(raw_entries(entries@)).dom().contains(key@) && keyed(raw_entries(entries@))[key@] == *v,
            None => !keyed(raw_entries(entries@)).dom().contains(key@),
        },
{
    match find_key(entries, key) {
        Some(i) => {
            proof { lemma_keyed_index(raw_entries(entries@), i as int); }
            Some(&entries[i].1)
        },
        None => {
            proof { lemma_keyed_absent(raw_entries(entries@), key@); }
            None
        },
    }
}

} // verus!
