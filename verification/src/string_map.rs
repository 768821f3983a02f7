use vstd::prelude::*;

use crate::text::str_eq;

verus! {

/// A map from strings to strings, kept as a list of entries with distinct keys.
pub struct StringMap {
    entries: Vec<(String, String)>,
}

/// Whether the keys of `entries` are pairwise distinct.
pub open spec fn distinct_keys(entries: Seq<(String, String)>) -> bool {
    forall|i: int, j: int|
        0 <= i < entries.len() && 0 <= j < entries.len() && i != j
            ==> #[trigger] entries[i].0@ != #[trigger] entries[j].0@
}

/// Whether some entry of `entries` has key `k`.
pub open spec fn has_key(entries: Seq<(String, String)>, k: Seq<char>) -> bool {
    exists|i: int| 0 <= i < entries.len() && #[trigger] entries[i].0@ == k
}

/// The index of the entry with key `k`.
pub open spec fn key_index(entries: Seq<(String, String)>, k: Seq<char>) -> int {
    choose|i: int| 0 <= i < entries.len() && #[trigger] entries[i].0@ == k
}

/// The map that a list of entries stands for.
pub open spec fn entries_map(entries: Seq<(String, String)>) -> Map<Seq<char>, Seq<char>> {
    Map::new(|k: Seq<char>| has_key(entries, k), |k: Seq<char>| entries[key_index(entries, k)].1@)
}

proof fn lemma_key_index(entries: Seq<(String, String)>, i: int)
    requires
        distinct_keys(entries),
        0 <= i < entries.len(),
    ensures
        has_key(entries, entries[i].0@),
        key_index(entries, entries[i].0@) == i,
        entries_map(entries).contains_key(entries[i].0@),
        entries_map(entries)[entries[i].0@] == entries[i].1@,
{
    let k = entries[i].0@;
    assert(has_key(entries, k));
    let j = key_index(entries, k);
    assert(entries[j].0@ == k);
}

impl View for StringMap {
    type V = Map<Seq<char>, Seq<char>>;

    closed spec fn view(&self) -> Map<Seq<char>, Seq<char>> {
        entries_map(self.entries@)
    }
}

impl StringMap {
    #[verifier::type_invariant]
    closed spec fn wf(self) -> bool {
        distinct_keys(self.entries@)
    }

    /// The entries, in the order in which their keys were first inserted.
    pub closed spec fn entry_seq(&self) -> Seq<(String, String)> {
        self.entries@
    }

    /// An empty map.
    pub fn new() -> (m: Self)
        ensures
            m@ == Map::<Seq<char>, Seq<char>>::empty(),
            m.entry_seq() == Seq::<(String, String)>::empty(),
    {
        let m = StringMap { entries: Vec::new() };
        assert(m@ =~= Map::<Seq<char>, Seq<char>>::empty());
        m
    }

    /// The number of keys.
    pub fn len(&self) -> (n: usize)
        ensures
            n == self@.dom().len(),
    {
        proof {
            use_type_invariant(self);
            self.lemma_dom_len();
        }
        self.entries.len()
    }

    proof fn lemma_dom_len(&self)
        requires
            distinct_keys(self.entries@),
        ensures
            self@.dom().finite(),
            self@.dom().len() == self.entries@.len(),
        decreases self.entries@.len(),
    {
        let s = self.entries@;
        let keys = s.map_values(|e: (String, String)| e.0@);
        assert forall|i: int, j: int| 0 <= i < keys.len() && 0 <= j < keys.len() && i != j
            implies keys[i] != keys[j] by {
            assert(s[i].0@ != s[j].0@);
        }
        keys.unique_seq_to_set();
        assert(self@.dom() =~= keys.to_set()) by {
            assert forall|k: Seq<char>| self@.dom().contains(k) implies keys.to_set().contains(k) by {
                let i = key_index(s, k);
                assert(keys[i] == k);
            }
            assert forall|k: Seq<char>| keys.to_set().contains(k) implies self@.dom().contains(k) by {
                let i = choose|i: int| 0 <= i < keys.len() && keys[i] == k;
                assert(s[i].0@ == k);
            }
        }
    }

    /// The entries, each key once, in the order in which the keys were first inserted.
    pub fn entries(&self) -> (r: &Vec<(String, String)>)
        ensures
            r@ == self.entry_seq(),
            distinct_keys(r@),
            entries_map(r@) == self@,
    {
        proof {
            use_type_invariant(self);
        }
        &self.entries
    }

    /// Looks a key up.
    pub fn get(&self, key: &str) -> (r: Option<&String>)
        ensures
            match r {
                Some(v) => self@.contains_key(key@) && self@[key@] == v@,
                None => !self@.contains_key(key@),
            },
    {
        proof {
            use_type_invariant(self);
        }
        let n = self.entries.len();
        let mut i: usize = 0;
        while i < n
            invariant
                n == self.entries@.len(),
                i <= n,
                distinct_keys(self.entries@),
                forall|j: int| 0 <= j < i ==> self.entries@[j].0@ != key@,
            decreases n - i,
        {
            if str_eq(self.entries[i].0.as_str(), key) {
                proof {
                    lemma_key_index(self.entries@, i as int);
                }
                return Some(&self.entries[i].1);
            }
            i += 1;
        }
        None
    }

    /// Whether the map holds `key`.
    pub fn contains_key(&self, key: &str) -> (r: bool)
        ensures
            r == self@.contains_key(key@),
    {
        self.get(key).is_some()
    }

    /// Inserts `value` under `key`, replacing any earlier value of that key.
    pub fn insert(&mut self, key: String, value: String)
        ensures
            final(self)@ == old(self)@.insert(key@, value@),
            old(self)@.contains_key(key@) ==> exists|i: int|
                0 <= i < old(self).entry_seq().len() && #[trigger] old(self).entry_seq()[i].0@
                    == key@ && final(self).entry_seq() == old(self).entry_seq().update(
                    i,
                    (key, value),
                ),
            !old(self)@.contains_key(key@) ==> final(self).entry_seq() == old(self).entry_seq().push(
                (key, value),
            ),
    {
        proof {
            use_type_invariant(&*self);
        }
        let ghost old_entries = self.entries@;
        let ghost entry = (key, value);
        let n = self.entries.len();
        let mut i: usize = 0;
        while i < n
            invariant
                n == self.entries@.len(),
                self.entries@ == old_entries,
                old(self).entries@ == old_entries,
                entry == (key, value),
                i <= n,
                distinct_keys(old_entries),
                forall|j: int| 0 <= j < i ==> old_entries[j].0@ != key@,
            decreases n - i,
        {
            if self.entries[i].0 == key {
                let mut entries: Vec<(String, String)> = Vec::new();
                std::mem::swap(&mut entries, &mut self.entries);
                entries.set(i, (key, value));
                let ghost new_entries = entries@;
                proof {
                    assert forall|a: int, b: int|
                        0 <= a < new_entries.len() && 0 <= b < new_entries.len() && a != b
                        implies #[trigger] new_entries[a].0@ != #[trigger] new_entries[b].0@ by {
                        if a != i && b != i {
                            assert(old_entries[a].0@ != old_entries[b].0@);
                        } else if a == i {
                            assert(old_entries[i as int].0@ != old_entries[b].0@);
                        } else {
                            assert(old_entries[a].0@ != old_entries[i as int].0@);
                        }
                    }
                    Self::lemma_set_entry(old_entries, new_entries, i as int);
                }
                self.entries = entries;
                assert(old(self).entry_seq()[i as int].0@ == key@);
                assert(self.entries@ == old_entries.update(i as int, entry));
                return;
            }
            i += 1;
        }
        let ghost k = key@;
        let ghost v = value@;
        let mut entries: Vec<(String, String)> = Vec::new();
        std::mem::swap(&mut entries, &mut self.entries);
        entries.push((key, value));
        let ghost new_entries = entries@;
        proof {
            assert forall|a: int, b: int|
                0 <= a < new_entries.len() && 0 <= b < new_entries.len() && a != b
                implies #[trigger] new_entries[a].0@ != #[trigger] new_entries[b].0@ by {
                if a < n && b < n {
                    assert(old_entries[a].0@ != old_entries[b].0@);
                }
            }
            lemma_push_entry(old_entries, new_entries, k, v);
        }
        self.entries = entries;
    }

    proof fn lemma_set_entry(
        old_entries: Seq<(String, String)>,
        new_entries: Seq<(String, String)>,
        i: int,
    )
        requires
            distinct_keys(old_entries),
            distinct_keys(new_entries),
            0 <= i < old_entries.len(),
            new_entries.len() == old_entries.len(),
            new_entries[i].0@ == old_entries[i].0@,
            forall|j: int| 0 <= j < old_entries.len() && j != i ==> new_entries[j] == old_entries[j],
        ensures
            entries_map(new_entries) == entries_map(old_entries).insert(
                new_entries[i].0@,
                new_entries[i].1@,
            ),
    {
        let m0 = entries_map(old_entries);
        let m1 = entries_map(new_entries);
        let k = new_entries[i].0@;
        assert forall|q: Seq<char>| #[trigger] m1.contains_key(q) == m0.insert(k, new_entries[i].1@).contains_key(q) by {
            if has_key(new_entries, q) {
                let j = key_index(new_entries, q);
                if j != i {
                    assert(old_entries[j].0@ == q);
                }
            }
            if has_key(old_entries, q) {
                let j = key_index(old_entries, q);
                if j != i {
                    assert(new_entries[j].0@ == q);
                }
            }
        }
        assert forall|q: Seq<char>| #[trigger] m1.contains_key(q) implies m1[q] == m0.insert(k, new_entries[i].1@)[q] by {
            let j = key_index(new_entries, q);
            lemma_key_index(new_entries, j);
            if j != i {
                lemma_key_index(old_entries, j);
            } else {
                lemma_key_index(new_entries, i);
            }
        }
        assert(m1 =~= m0.insert(k, new_entries[i].1@));
    }

}

pub(crate) proof fn lemma_push_entry(
    old_entries: Seq<(String, String)>,
    new_entries: Seq<(String, String)>,
    k: Seq<char>,
    v: Seq<char>,
)
    requires
        distinct_keys(old_entries),
        distinct_keys(new_entries),
        new_entries.len() == old_entries.len() + 1,
        new_entries[old_entries.len() as int].0@ == k,
        new_entries[old_entries.len() as int].1@ == v,
        forall|j: int| 0 <= j < old_entries.len() ==> new_entries[j] == old_entries[j],
    ensures
        entries_map(new_entries) == entries_map(old_entries).insert(k, v),
{
    let m0 = entries_map(old_entries);
    let m1 = entries_map(new_entries);
    let n = old_entries.len() as int;
    assert forall|q: Seq<char>| #[trigger] m1.contains_key(q) == m0.insert(k, v).contains_key(q) by {
        if has_key(new_entries, q) {
            let j = key_index(new_entries, q);
            if j != n {
                assert(old_entries[j].0@ == q);
            }
        }
        if has_key(old_entries, q) {
            let j = key_index(old_entries, q);
            assert(new_entries[j].0@ == q);
        }
    }
    assert forall|q: Seq<char>| #[trigger] m1.contains_key(q) implies m1[q] == m0.insert(k, v)[q] by {
        let j = key_index(new_entries, q);
        lemma_key_index(new_entries, j);
        if j != n {
            lemma_key_index(old_entries, j);
        }
    }
    assert(m1 =~= m0.insert(k, v));
}

/// `m` with each pair of `pairs` inserted in turn, later pairs winning.
pub open spec fn insert_all(m: Map<Seq<char>, Seq<char>>, pairs: Seq<(String, String)>) -> Map<
    Seq<char>,
    Seq<char>,
>
    decreases pairs.len(),
{
    if pairs.len() == 0 {
        m
    } else {
        insert_all(m, pairs.drop_last()).insert(pairs.last().0@, pairs.last().1@)
    }
}

/// With distinct keys, the map of a list of entries is the empty map with
/// the entries inserted in order.
pub proof fn lemma_entries_map_is_insert_all(entries: Seq<(String, String)>)
    requires
        distinct_keys(entries),
    ensures
        entries_map(entries) == insert_all(Map::empty(), entries),
    decreases entries.len(),
{
    if entries.len() == 0 {
        assert(entries_map(entries) =~= Map::<Seq<char>, Seq<char>>::empty());
    } else {
        let init = entries.drop_last();
        assert(distinct_keys(init)) by {
            assert forall|i: int, j: int| 0 <= i < init.len() && 0 <= j < init.len() && i != j
                implies #[trigger] init[i].0@ != #[trigger] init[j].0@ by {
                assert(init[i] == entries[i] && init[j] == entries[j]);
            }
        }
        lemma_entries_map_is_insert_all(init);
        lemma_push_entry(init, entries, entries.last().0@, entries.last().1@);
    }
}

} // verus!
