//! A map from strings to values kept as a list of entries with distinct keys.

use vstd::prelude::*;

use crate::payload::PayloadValue;
use crate::text::same_text;

verus! {

/// A key with its value.
#[derive(Debug, PartialEq, Eq)]
pub struct TextMapEntry<V> {
    pub key: String,
    pub value: V,
}

impl Clone for PayloadValue {
    fn clone(&self) -> (copy: Self)
        ensures
            copy == *self,
    {
        match self {
            PayloadValue::Null => PayloadValue::Null,
            PayloadValue::Bool(b) => PayloadValue::Bool(*b),
            PayloadValue::Int(i) => PayloadValue::Int(*i),
            PayloadValue::UInt(u) => PayloadValue::UInt(*u),
            PayloadValue::Text(s) => PayloadValue::Text(s.clone()),
            PayloadValue::Json(s) => PayloadValue::Json(s.clone()),
        }
    }
}

/// No two entries share a key.
pub open spec fn distinct_keys<V>(entries: Seq<TextMapEntry<V>>) -> bool {
    forall|i: int, j: int|
        0 <= i < entries.len() && 0 <= j < entries.len() && i != j
            ==> #[trigger] entries[i].key@ != #[trigger] entries[j].key@
}

/// Some entry has key `k`.
pub open spec fn has_key<V>(entries: Seq<TextMapEntry<V>>, k: Seq<char>) -> bool {
    exists|i: int| 0 <= i < entries.len() && #[trigger] entries[i].key@ == k
}

/// The position of an entry with key `k`.
pub open spec fn key_position<V>(entries: Seq<TextMapEntry<V>>, k: Seq<char>) -> int {
    choose|i: int| 0 <= i < entries.len() && #[trigger] entries[i].key@ == k
}

/// The map that a list of entries with distinct keys stands for.
pub open spec fn entries_map<V: View>(entries: Seq<TextMapEntry<V>>) -> Map<Seq<char>, V::V> {
    Map::new(
        |k: Seq<char>| has_key(entries, k),
        |k: Seq<char>| entries[key_position(entries, k)].value@,
    )
}

/// A map from strings to values, each key at most once, in no particular order.
#[derive(Debug)]
pub struct TextMap<V: View> {
    entries: Vec<TextMapEntry<V>>,
}

impl<V: View> View for TextMap<V> {
    type V = Map<Seq<char>, V::V>;

    closed spec fn view(&self) -> Map<Seq<char>, V::V> {
        entries_map(self.entries@)
    }
}

/// In a list with distinct keys, the entry at position `i` is the one the map reads.
proof fn lemma_entry_at<V: View>(entries: Seq<TextMapEntry<V>>, i: int)
    requires
        distinct_keys(entries),
        0 <= i < entries.len(),
    ensures
        has_key(entries, entries[i].key@),
        key_position(entries, entries[i].key@) == i,
        entries_map(entries).contains_key(entries[i].key@),
        entries_map(entries)[entries[i].key@] == entries[i].value@,
{
    let k = entries[i].key@;
    assert(has_key(entries, k));
    let p = key_position(entries, k);
    assert(entries[p].key@ == k);
}

impl Clone for TextMap<PayloadValue> {
    fn clone(&self) -> (copy: Self)
        ensures
            copy@ == self@,
    {
        proof {
            use_type_invariant(self);
        }
        let mut entries: Vec<TextMapEntry<PayloadValue>> = Vec::new();
        let mut i: usize = 0;
        while i < self.entries.len()
            invariant
                i <= self.entries@.len(),
                entries@ == self.entries@.subrange(0, i as int),
            decreases self.entries@.len() - i,
        {
            entries.push(
                TextMapEntry { key: self.entries[i].key.clone(), value: self.entries[i].value.clone() },
            );
            i += 1;
            assert(entries@ =~= self.entries@.subrange(0, i as int));
        }
        assert(self.entries@.subrange(0, self.entries@.len() as int) =~= self.entries@);
        TextMap { entries }
    }
}

impl<V: View> TextMap<V> {
    #[verifier::type_invariant]
    closed spec fn keys_distinct(&self) -> bool {
        distinct_keys(self.entries@)
    }

    /// An empty map.
    pub fn new() -> (m: Self)
        ensures
            m@ == Map::<Seq<char>, V::V>::empty(),
    {
        let m = TextMap { entries: Vec::new() };
        assert(m@ =~= Map::<Seq<char>, V::V>::empty());
        m
    }

    /// The number of keys.
    pub fn len(&self) -> (n: usize)
        ensures
            n == self@.dom().len(),
    {
        proof {
            use_type_invariant(self);
            lemma_dom_len(self.entries@);
        }
        self.entries.len()
    }

    /// Whether the map has no key.
    pub fn is_empty(&self) -> (empty: bool)
        ensures
            empty == (self@.dom().len() == 0),
    {
        self.len() == 0
    }

    /// The entries, each key once, in no particular order.
    pub fn entries(&self) -> (entries: &Vec<TextMapEntry<V>>)
        ensures
            distinct_keys(entries@),
            self@ == entries_map(entries@),
    {
        proof {
            use_type_invariant(self);
        }
        &self.entries
    }

    fn position(&self, key: &str) -> (found: Option<usize>)
        ensures
            match found {
                Some(i) => i < self.entries@.len() && self.entries@[i as int].key@ == key@,
                None => !has_key(self.entries@, key@),
            },
    {
        let mut i: usize = 0;
        while i < self.entries.len()
            invariant
                i <= self.entries@.len(),
                forall|j: int| 0 <= j < i ==> #[trigger] self.entries@[j].key@ != key@,
            decreases self.entries@.len() - i,
        {
            if same_text(self.entries[i].key.as_str(), key) {
                return Some(i);
            }
            i += 1;
        }
        None
    }

    /// The value stored under `key`.
    pub fn get(&self, key: &str) -> (value: Option<&V>)
        ensures
            value is Some == self@.contains_key(key@),
            value matches Some(v) ==> v@ == self@[key@],
    {
        proof {
            use_type_invariant(self);
        }
        match self.position(key) {
            Some(i) => {
                proof {
                    lemma_entry_at(self.entries@, i as int);
                }
                Some(&self.entries[i].value)
            },
            None => None,
        }
    }

    /// Stores `value` under `key`, replacing what the key held before.
    pub fn insert(&mut self, key: String, value: V)
        ensures
            final(self)@ == old(self)@.insert(key@, value@),
    {
        proof {
            use_type_invariant(&*self);
        }
        let ghost old_entries = self.entries@;
        let found = self.position(key.as_str());
        let mut entries: Vec<TextMapEntry<V>> = Vec::new();
        std::mem::swap(&mut entries, &mut self.entries);
        match found {
            Some(i) => {
                let ghost new_entries = old_entries.update(i as int, TextMapEntry { key, value });
                proof {
                    assert forall|a: int, b: int|
                        0 <= a < new_entries.len() && 0 <= b < new_entries.len() && a != b
                            implies #[trigger] new_entries[a].key@ != #[trigger] new_entries[b].key@ by {
                        assert(old_entries[a].key@ == new_entries[a].key@);
                        assert(old_entries[b].key@ == new_entries[b].key@);
                    }
                    lemma_map_after_update(old_entries, i as int, TextMapEntry { key, value });
                }
                entries.set(i, TextMapEntry { key, value });
            },
            None => {
                proof {
                    lemma_map_after_push(old_entries, TextMapEntry { key, value });
                }
                entries.push(TextMapEntry { key, value });
            },
        }
        self.entries = entries;
    }
}

/// Replacing the entry of an existing key with one of the same key replaces its value in the map.
proof fn lemma_map_after_update<V: View>(entries: Seq<TextMapEntry<V>>, i: int, e: TextMapEntry<V>)
    requires
        distinct_keys(entries),
        0 <= i < entries.len(),
        entries[i].key@ == e.key@,
    ensures
        distinct_keys(entries.update(i, e)),
        entries_map(entries.update(i, e)) == entries_map(entries).insert(e.key@, e.value@),
{
    let n = entries.update(i, e);
    assert forall|a: int, b: int|
        0 <= a < n.len() && 0 <= b < n.len() && a != b
            implies #[trigger] n[a].key@ != #[trigger] n[b].key@ by {
        assert(entries[a].key@ == n[a].key@);
        assert(entries[b].key@ == n[b].key@);
    }
    let m_new = entries_map(n);
    let m_old = entries_map(entries).insert(e.key@, e.value@);
    assert forall|k: Seq<char>| #[trigger] m_new.contains_key(k) == m_old.contains_key(k) by {
        if has_key(n, k) {
            let p = choose|p: int| 0 <= p < n.len() && #[trigger] n[p].key@ == k;
            assert(entries[p].key@ == k);
        }
        if has_key(entries, k) {
            let p = choose|p: int| 0 <= p < entries.len() && #[trigger] entries[p].key@ == k;
            assert(n[p].key@ == k);
        }
        if k == e.key@ {
            assert(n[i].key@ == k);
        }
    }
    assert forall|k: Seq<char>| #[trigger] m_new.contains_key(k) implies m_new[k] == m_old[k] by {
        let p = choose|p: int| 0 <= p < n.len() && #[trigger] n[p].key@ == k;
        lemma_entry_at(n, p);
        if p != i {
            lemma_entry_at(entries, p);
        }
    }
    assert(m_new =~= m_old);
}

/// Appending an entry with a new key adds that key to the map.
proof fn lemma_map_after_push<V: View>(entries: Seq<TextMapEntry<V>>, e: TextMapEntry<V>)
    requires
        distinct_keys(entries),
        !has_key(entries, e.key@),
    ensures
        distinct_keys(entries.push(e)),
        entries_map(entries.push(e)) == entries_map(entries).insert(e.key@, e.value@),
{
    let n = entries.push(e);
    let last = entries.len() as int;
    assert forall|a: int, b: int|
        0 <= a < n.len() && 0 <= b < n.len() && a != b
            implies #[trigger] n[a].key@ != #[trigger] n[b].key@ by {
        if a < last && b < last {
            assert(entries[a].key@ == n[a].key@);
            assert(entries[b].key@ == n[b].key@);
        } else if a == last {
            assert(entries[b].key@ == n[b].key@);
        } else {
            assert(entries[a].key@ == n[a].key@);
        }
    }
    let m_new = entries_map(n);
    let m_old = entries_map(entries).insert(e.key@, e.value@);
    assert forall|k: Seq<char>| #[trigger] m_new.contains_key(k) == m_old.contains_key(k) by {
        if has_key(n, k) {
            let p = choose|p: int| 0 <= p < n.len() && #[trigger] n[p].key@ == k;
            if p < last {
                assert(entries[p].key@ == k);
            }
        }
        if has_key(entries, k) {
            let p = choose|p: int| 0 <= p < entries.len() && #[trigger] entries[p].key@ == k;
            assert(n[p].key@ == k);
        }
        if k == e.key@ {
            assert(n[last].key@ == k);
        }
    }
    assert forall|k: Seq<char>| #[trigger] m_new.contains_key(k) implies m_new[k] == m_old[k] by {
        let p = choose|p: int| 0 <= p < n.len() && #[trigger] n[p].key@ == k;
        lemma_entry_at(n, p);
        if p < last {
            assert(entries[p] == n[p]);
            lemma_entry_at(entries, p);
        }
    }
    assert(m_new =~= m_old);
}

/// A list with distinct keys has as many entries as its map has keys.
proof fn lemma_dom_len<V: View>(entries: Seq<TextMapEntry<V>>)
    requires
        distinct_keys(entries),
    ensures
        entries_map(entries).dom().finite(),
        entries_map(entries).dom().len() == entries.len(),
    decreases entries.len(),
{
    let m = entries_map(entries);
    if entries.len() == 0 {
        assert(m.dom() =~= Set::<Seq<char>>::empty());
    } else {
        let init = entries.drop_last();
        let e = entries.last();
        assert forall|a: int, b: int|
            0 <= a < init.len() && 0 <= b < init.len() && a != b
                implies #[trigger] init[a].key@ != #[trigger] init[b].key@ by {
            assert(init[a] == entries[a]);
            assert(init[b] == entries[b]);
        }
        assert(!has_key(init, e.key@)) by {
            if has_key(init, e.key@) {
                let p = choose|p: int| 0 <= p < init.len() && #[trigger] init[p].key@ == e.key@;
                assert(entries[p].key@ == e.key@);
                assert(entries[entries.len() - 1].key@ == e.key@);
            }
        }
        lemma_dom_len(init);
        lemma_map_after_push(init, e);
        assert(init.push(e) =~= entries);
        assert(m.dom() =~= entries_map(init).dom().insert(e.key@));
    }
}

/// A value written under a key (`insert`) is what a later read of that key
/// (`get`) gives back, and a write leaves every other key as it was.
pub proof fn map_read_after_write<V>(
    p: Map<Seq<char>, V>,
    key: Seq<char>,
    value: V,
    other: Seq<char>,
)
    requires
        other != key,
    ensures
        p.insert(key, value).contains_key(key),
        p.insert(key, value)[key] == value,
        p.insert(key, value).contains_key(other) == p.contains_key(other),
        p.contains_key(other) ==> p.insert(key, value)[other] == p[other],
{
}

/// Writing the same key twice keeps only the second value.
pub proof fn map_last_write_wins<V>(
    p: Map<Seq<char>, V>,
    key: Seq<char>,
    first: V,
    second: V,
)
    ensures
        p.insert(key, first).insert(key, second) == p.insert(key, second),
{
    assert(p.insert(key, first).insert(key, second) =~= p.insert(key, second));
}

} // verus!
