//! A finite map keyed by text.
//!
//! The map is kept as a list of entries whose keys are pairwise distinct, in
//! the order in which the keys were first inserted.  Its view is the
//! mathematical map from key text to value.

use vstd::prelude::*;

verus! {

/// No two entries of `s` carry the same key.
pub open spec fn distinct_keys<V>(s: Seq<(String, V)>) -> bool {
    forall|i: int, j: int| 0 <= i < j < s.len() ==> s[i].0@ != s[j].0@
}

/// Entry `i` of `s` carries the key `k`.
pub open spec fn key_position<V>(s: Seq<(String, V)>, k: Seq<char>, i: int) -> bool {
    0 <= i < s.len() && s[i].0@ == k
}

/// The map that a list of entries stands for.
pub open spec fn entries_map<V>(s: Seq<(String, V)>) -> Map<Seq<char>, V> {
    Map::new(
        |k: Seq<char>| exists|i: int| key_position(s, k, i),
        |k: Seq<char>| s[choose|i: int| key_position(s, k, i)].1,
    )
}

/// The keys of `m` that start with `prefix`, with that prefix taken off.
/// Read the other way: `m` with `prefix` put in front of every key.
pub open spec fn prefixed(prefix: Seq<char>, m: Map<Seq<char>, Seq<char>>) -> Map<
    Seq<char>,
    Seq<char>,
> {
    Map::new(
        |k: Seq<char>|
            k.len() >= prefix.len() && k.subrange(0, prefix.len() as int) == prefix
                && m.contains_key(k.subrange(prefix.len() as int, k.len() as int)),
        |k: Seq<char>| m[k.subrange(prefix.len() as int, k.len() as int)],
    )
}

/// The text of each value of a map of strings.
pub open spec fn text_of(m: Map<Seq<char>, String>) -> Map<Seq<char>, Seq<char>> {
    m.map_values(|v: String| v@)
}

/// In a list with distinct keys each entry is what the map holds under its key.
pub proof fn lemma_entry_in_map<V>(s: Seq<(String, V)>, i: int)
    requires
        distinct_keys(s),
        0 <= i < s.len(),
    ensures
        entries_map(s).contains_key(s[i].0@),
        entries_map(s)[s[i].0@] == s[i].1,
{
    let k = s[i].0@;
    assert(key_position(s, k, i));
    let j = choose|j: int| key_position(s, k, j);
    assert(key_position(s, k, j));
    if j < i {
        assert(s[j].0@ != s[i].0@);
    } else if i < j {
        assert(s[i].0@ != s[j].0@);
    }
}

/// Appending an entry under a fresh key inserts it into the map.
pub proof fn lemma_push_entry<V>(s: Seq<(String, V)>, key: String, value: V)
    requires
        distinct_keys(s),
        !entries_map(s).contains_key(key@),
    ensures
        distinct_keys(s.push((key, value))),
        entries_map(s.push((key, value))) == entries_map(s).insert(key@, value),
{
    let t = s.push((key, value));
    assert forall|i: int, j: int| 0 <= i < j < t.len() implies t[i].0@ != t[j].0@ by {
        if j == s.len() {
            assert(key_position(s, s[i].0@, i));
        }
    }
    let a = entries_map(t);
    let b = entries_map(s).insert(key@, value);
    assert forall|k: Seq<char>| a.contains_key(k) <==> b.contains_key(k) by {
        if a.contains_key(k) {
            let j = choose|j: int| key_position(t, k, j);
            if j < s.len() {
                assert(key_position(s, k, j));
            }
        }
        if b.contains_key(k) {
            if k == key@ {
                assert(key_position(t, k, s.len() as int));
            } else {
                let j = choose|j: int| key_position(s, k, j);
                assert(key_position(t, k, j));
            }
        }
    }
    assert forall|k: Seq<char>| a.contains_key(k) implies a[k] == b[k] by {
        let j = choose|j: int| key_position(t, k, j);
        lemma_entry_in_map(t, j);
        if j < s.len() {
            lemma_entry_in_map(s, j);
        }
    }
    assert(a =~= b);
}

/// Replacing the value of entry `i` inserts the new value under that entry's key.
pub proof fn lemma_replace_entry<V>(s: Seq<(String, V)>, i: int, key: String, value: V)
    requires
        distinct_keys(s),
        0 <= i < s.len(),
        s[i].0@ == key@,
    ensures
        distinct_keys(s.update(i, (key, value))),
        entries_map(s.update(i, (key, value))) == entries_map(s).insert(key@, value),
{
    let t = s.update(i, (key, value));
    assert forall|a: int, b: int| 0 <= a < b < t.len() implies t[a].0@ != t[b].0@ by {
        assert(s[a].0@ != s[b].0@);
    }
    let a = entries_map(t);
    let b = entries_map(s).insert(key@, value);
    assert forall|k: Seq<char>| a.contains_key(k) <==> b.contains_key(k) by {
        if a.contains_key(k) {
            let j = choose|j: int| key_position(t, k, j);
            assert(key_position(s, k, j));
        }
        if b.contains_key(k) {
            if k == key@ {
                assert(key_position(t, k, i));
            } else {
                let j = choose|j: int| key_position(s, k, j);
                assert(key_position(t, k, j));
            }
        }
    }
    assert forall|k: Seq<char>| a.contains_key(k) implies a[k] == b[k] by {
        let j = choose|j: int| key_position(t, k, j);
        lemma_entry_in_map(t, j);
        lemma_entry_in_map(s, j);
    }
    assert(a =~= b);
}

/// Putting a prefix in front of every key commutes with inserting an entry.
pub proof fn lemma_prefixed_insert(
    prefix: Seq<char>,
    m: Map<Seq<char>, Seq<char>>,
    key: Seq<char>,
    value: Seq<char>,
)
    ensures
        prefixed(prefix, m.insert(key, value)) == prefixed(prefix, m).insert(prefix + key, value),
{
    let n = prefix.len() as int;
    let full = prefix + key;
    assert(full.subrange(0, n) =~= prefix);
    assert(full.subrange(n, full.len() as int) =~= key);
    let a = prefixed(prefix, m.insert(key, value));
    let b = prefixed(prefix, m).insert(full, value);
    assert forall|k: Seq<char>| a.contains_key(k) <==> b.contains_key(k) by {
        if k.len() >= n && k.subrange(0, n) == prefix && k.subrange(n, k.len() as int) == key {
            assert(k =~= full);
        }
    }
    assert forall|k: Seq<char>| a.contains_key(k) implies a[k] == b[k] by {
        if k.subrange(n, k.len() as int) == key {
            assert(k =~= full);
        }
    }
    assert(a =~= b);
}

/// Taking entry `i` out of a list removes its key from the map.
pub proof fn lemma_remove_entry<V>(s: Seq<(String, V)>, i: int)
    requires
        distinct_keys(s),
        0 <= i < s.len(),
    ensures
        distinct_keys(s.remove(i)),
        entries_map(s.remove(i)) == entries_map(s).remove(s[i].0@),
{
    let t = s.remove(i);
    assert forall|a: int, b: int| 0 <= a < b < t.len() implies t[a].0@ != t[b].0@ by {
        let a0 = if a < i { a } else { a + 1 };
        let b0 = if b < i { b } else { b + 1 };
        assert(s[a0].0@ != s[b0].0@);
    }
    let a = entries_map(t);
    let b = entries_map(s).remove(s[i].0@);
    assert forall|k: Seq<char>| a.contains_key(k) <==> b.contains_key(k) by {
        if a.contains_key(k) {
            let j = choose|j: int| key_position(t, k, j);
            let j0 = if j < i { j } else { j + 1 };
            assert(key_position(s, k, j0));
            if j0 < i {
                assert(s[j0].0@ != s[i].0@);
            } else {
                assert(s[i].0@ != s[j0].0@);
            }
        }
        if b.contains_key(k) {
            let j = choose|j: int| key_position(s, k, j);
            let j1 = if j < i { j } else { j - 1 };
            assert(key_position(t, k, j1));
        }
    }
    assert forall|k: Seq<char>| a.contains_key(k) implies a[k] == b[k] by {
        let j = choose|j: int| key_position(t, k, j);
        let j0 = if j < i { j } else { j + 1 };
        lemma_entry_in_map(t, j);
        lemma_entry_in_map(s, j0);
    }
    assert(a =~= b);
}

/// A finite map from text to values of type `V`.
pub struct StringMap<V> {
    entries: Vec<(String, V)>,
}

impl<V> View for StringMap<V> {
    type V = Map<Seq<char>, V>;

    closed spec fn view(&self) -> Map<Seq<char>, V> {
        entries_map(self.entries@)
    }
}

impl<V> StringMap<V> {
    #[verifier::type_invariant]
    spec fn keys_are_distinct(self) -> bool {
        distinct_keys(self.entries@)
    }

    /// The entries in the order in which their keys were first inserted.
    pub closed spec fn entries(&self) -> Seq<(String, V)> {
        self.entries@
    }

    /// The map holds exactly the entries: each entry under its key, and no
    /// key but those of the entries.
    pub proof fn lemma_entries(&self)
        ensures
            self@ == entries_map(self.entries()),
            forall|k: Seq<char>|
                self@.contains_key(k) ==> key_position(
                    self.entries(),
                    k,
                    choose|i: int| key_position(self.entries(), k, i),
                ),
    {
    }

    /// The empty map.
    pub fn new() -> (m: Self)
        ensures
            m@ == Map::<Seq<char>, V>::empty(),
            m.entries() == Seq::<(String, V)>::empty(),
    {
        let m = StringMap { entries: Vec::new() };
        assert(m@ =~= Map::<Seq<char>, V>::empty());
        m
    }

    /// The number of entries.
    pub fn len(&self) -> (n: usize)
        ensures
            n == self.entries().len(),
            n == self@.len(),
            self@.dom().finite(),
    {
        proof {
            use_type_invariant(self);
            lemma_entries_cardinality(self.entries@);
        }
        self.entries.len()
    }

    /// The key of entry `i`.
    pub fn key_at(&self, i: usize) -> (k: &String)
        requires
            i < self.entries().len(),
        ensures
            *k == self.entries()[i as int].0,
            self@.contains_key(k@),
    {
        proof {
            use_type_invariant(self);
            lemma_entry_in_map(self.entries@, i as int);
        }
        &self.entries[i].0
    }

    /// The value of entry `i`.
    pub fn value_at(&self, i: usize) -> (v: &V)
        requires
            i < self.entries().len(),
        ensures
            *v == self.entries()[i as int].1,
            self@.contains_key(self.entries()[i as int].0@),
            *v == self@[self.entries()[i as int].0@],
    {
        proof {
            use_type_invariant(self);
            lemma_entry_in_map(self.entries@, i as int);
        }
        &self.entries[i].1
    }

    /// The position of `key` among the entries, if the map holds it.
    fn position(&self, key: &String) -> (p: Option<usize>)
        ensures
            match p {
                Some(i) => key_position(self.entries@, key@, i as int),
                None => !self@.contains_key(key@),
            },
    {
        let mut i: usize = 0;
        while i < self.entries.len()
            invariant
                i <= self.entries@.len(),
                forall|j: int| 0 <= j < i ==> !key_position(self.entries@, key@, j),
            decreases self.entries@.len() - i,
        {
            if self.entries[i].0 == *key {
                return Some(i);
            }
            i += 1;
        }
        None
    }

    /// Whether the map holds `key`.
    pub fn contains_key(&self, key: &String) -> (held: bool)
        ensures
            held == self@.contains_key(key@),
    {
        match self.position(key) {
            Some(i) => true,
            None => false,
        }
    }

    /// The value under `key`, if the map holds one.
    pub fn get(&self, key: &String) -> (found: Option<&V>)
        ensures
            match found {
                Some(v) => self@.contains_key(key@) && *v == self@[key@],
                None => !self@.contains_key(key@),
            },
    {
        match self.position(key) {
            Some(i) => {
                proof {
                    use_type_invariant(self);
                    lemma_entry_in_map(self.entries@, i as int);
                }
                Some(&self.entries[i].1)
            },
            None => None,
        }
    }

    /// Puts `value` under `key`, in place of the value that was there, if any.
    pub fn insert(&mut self, key: String, value: V)
        ensures
            final(self)@ == old(self)@.insert(key@, value),
    {
        proof {
            use_type_invariant(&*self);
        }
        let found = self.position(&key);
        let mut entries: Vec<(String, V)> = Vec::new();
        core::mem::swap(&mut self.entries, &mut entries);
        match found {
            Some(i) => {
                proof {
                    lemma_replace_entry(entries@, i as int, key, value);
                }
                entries.set(i, (key, value));
            },
            None => {
                proof {
                    lemma_push_entry(entries@, key, value);
                }
                entries.push((key, value));
            },
        }
        core::mem::swap(&mut self.entries, &mut entries);
    }

    /// Takes the value under `key` out of the map, if the map holds one.
    pub fn remove(&mut self, key: &String) -> (taken: Option<V>)
        ensures
            final(self)@ == old(self)@.remove(key@),
            match taken {
                Some(v) => old(self)@.contains_key(key@) && v == old(self)@[key@],
                None => !old(self)@.contains_key(key@),
            },
    {
        proof {
            use_type_invariant(&*self);
        }
        let found = self.position(key);
        match found {
            Some(i) => {
                let mut entries: Vec<(String, V)> = Vec::new();
                core::mem::swap(&mut self.entries, &mut entries);
                proof {
                    lemma_remove_entry(entries@, i as int);
                    lemma_entry_in_map(entries@, i as int);
                }
                let entry = entries.remove(i);
                core::mem::swap(&mut self.entries, &mut entries);
                Some(entry.1)
            },
            None => {
                assert(self@.remove(key@) =~= self@);
                None
            },
        }
    }
}

impl<V: Copy> StringMap<V> {
    /// A copy of the map.
    pub fn snapshot(&self) -> (copy: Self)
        ensures
            copy@ == self@,
    {
        proof {
            use_type_invariant(self);
        }
        let mut copy: StringMap<V> = StringMap::new();
        let n = self.entries.len();
        let mut i: usize = 0;
        assert(self.entries@.take(0) =~= Seq::<(String, V)>::empty());
        assert(entries_map(self.entries@.take(0)) =~= Map::<Seq<char>, V>::empty());
        while i < n
            invariant
                n == self.entries@.len(),
                i <= n,
                distinct_keys(self.entries@),
                copy@ == entries_map(self.entries@.take(i as int)),
            decreases n - i,
        {
            let key = self.entries[i].0.clone();
            let value = self.entries[i].1;
            proof {
                let all = self.entries@;
                let done = all.take(i as int);
                let entry = all[i as int];
                assert(all.take(i + 1) =~= done.push((entry.0, entry.1)));
                assert(distinct_keys(done)) by {
                    assert forall|a: int, b: int| 0 <= a < b < done.len() implies done[a].0@
                        != done[b].0@ by {
                        assert(all[a].0@ != all[b].0@);
                    }
                }
                assert(!entries_map(done).contains_key(entry.0@)) by {
                    if entries_map(done).contains_key(entry.0@) {
                        let j = choose|j: int| key_position(done, entry.0@, j);
                        assert(all[j].0@ != all[i as int].0@);
                    }
                }
                lemma_push_entry(done, entry.0, entry.1);
            }
            copy.insert(key, value);
            i += 1;
        }
        assert(self.entries@.take(n as int) =~= self.entries@);
        copy
    }
}

/// A list with distinct keys stands for a finite map with one key per entry.
pub proof fn lemma_entries_cardinality<V>(s: Seq<(String, V)>)
    requires
        distinct_keys(s),
    ensures
        entries_map(s).dom().finite(),
        entries_map(s).len() == s.len(),
    decreases s.len(),
{
    if s.len() == 0 {
        assert(entries_map(s) =~= Map::<Seq<char>, V>::empty());
    } else {
        let front = s.drop_last();
        let last = s.last();
        assert(distinct_keys(front)) by {
            assert forall|i: int, j: int| 0 <= i < j < front.len() implies front[i].0@
                != front[j].0@ by {
                assert(s[i].0@ != s[j].0@);
            }
        }
        lemma_entries_cardinality(front);
        assert(!entries_map(front).contains_key(last.0@)) by {
            if entries_map(front).contains_key(last.0@) {
                let j = choose|j: int| key_position(front, last.0@, j);
                assert(s[j].0@ != s[s.len() - 1].0@);
            }
        }
        lemma_push_entry(front, last.0, last.1);
        assert(front.push((last.0, last.1)) =~= s);
    }
}

impl StringMap<String> {
    /// The map with each value taken as text.
    pub open spec fn text(&self) -> Map<Seq<char>, Seq<char>> {
        text_of(self@)
    }

    /// Puts `value` under `key`; the contract speaks of the texts alone.
    pub fn insert_text(&mut self, key: String, value: String)
        ensures
            final(self).text() == old(self).text().insert(key@, value@),
    {
        self.insert(key, value);
        assert(self.text() =~= old(self).text().insert(key@, value@));
    }

    /// The text under `key`, or the empty text where the map holds none.
    pub fn get_or_empty(&self, key: &String) -> (text: String)
        ensures
            text@ == lookup_or_empty(self.text(), key@),
    {
        match self.get(key) {
            Some(v) => v.clone(),
            None => String::new(),
        }
    }

    /// Copies every entry of `other` into the map, with `prefix` put in front
    /// of its key.  An entry already held under such a key is replaced.
    pub fn insert_prefixed(&mut self, prefix: &str, other: &StringMap<String>)
        ensures
            final(self).text() == old(self).text().union_prefer_right(
                prefixed(prefix@, other.text()),
            ),
    {
        proof {
            use_type_invariant(other);
        }
        let n = other.entries.len();
        let mut i: usize = 0;
        assert(other.entries@.take(0) =~= Seq::<(String, String)>::empty());
        assert(text_of(entries_map(other.entries@.take(0))) =~= Map::<
            Seq<char>,
            Seq<char>,
        >::empty());
        assert(prefixed(prefix@, Map::<Seq<char>, Seq<char>>::empty()) =~= Map::<
            Seq<char>,
            Seq<char>,
        >::empty());
        assert(self.text() =~= old(self).text().union_prefer_right(
            Map::<Seq<char>, Seq<char>>::empty(),
        ));
        while i < n
            invariant
                n == other.entries@.len(),
                i <= n,
                distinct_keys(other.entries@),
                self.text() == old(self).text().union_prefer_right(
                    prefixed(prefix@, text_of(entries_map(other.entries@.take(i as int)))),
                ),
            decreases n - i,
        {
            let key = String::from_str(prefix).concat(other.entries[i].0.as_str());
            let value = other.entries[i].1.clone();
            proof {
                let all = other.entries@;
                let done = all.take(i as int);
                let entry = all[i as int];
                assert(all.take(i + 1) =~= done.push((entry.0, entry.1)));
                assert(distinct_keys(done)) by {
                    assert forall|a: int, b: int| 0 <= a < b < done.len() implies done[a].0@
                        != done[b].0@ by {
                        assert(all[a].0@ != all[b].0@);
                    }
                }
                assert(!entries_map(done).contains_key(entry.0@)) by {
                    if entries_map(done).contains_key(entry.0@) {
                        let j = choose|j: int| key_position(done, entry.0@, j);
                        assert(all[j].0@ != all[i as int].0@);
                    }
                }
                lemma_push_entry(done, entry.0, entry.1);
                let before = text_of(entries_map(done));
                let after = text_of(entries_map(all.take(i + 1)));
                assert(after =~= before.insert(entry.0@, entry.1@));
                lemma_prefixed_insert(prefix@, before, entry.0@, entry.1@);
                assert(old(self).text().union_prefer_right(prefixed(prefix@, after))
                    =~= old(self).text().union_prefer_right(prefixed(prefix@, before)).insert(
                    prefix@ + entry.0@,
                    entry.1@,
                ));
            }
            self.insert_text(key, value);
            i += 1;
        }
        assert(other.entries@.take(n as int) =~= other.entries@);
    }
}

/// The text that `m` holds under `key`, or the empty text where it holds none.
pub open spec fn lookup_or_empty(m: Map<Seq<char>, Seq<char>>, key: Seq<char>) -> Seq<char> {
    if m.contains_key(key) {
        m[key]
    } else {
        Seq::empty()
    }
}

} // verus!
