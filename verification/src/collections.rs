//! Small owned collections with exact models.
//!
//! Both collections keep their items in insertion order in a vector and hold,
//! as a type invariant, that nothing occurs twice.  Their views are a
//! mathematical set and a mathematical map.

use vstd::prelude::*;

verus! {

/// Compares two byte strings.
pub fn bytes_equal(a: &[u8], b: &[u8]) -> (r: bool)
    ensures
        r == (a@ == b@),
{
    if a.len() != b.len() {
        return false;
    }
    let mut i: usize = 0;
    while i < a.len()
        invariant
            a@.len() == b@.len(),
            i <= a@.len(),
            forall|j: int| 0 <= j < i ==> a@[j] == b@[j],
        decreases a@.len() - i,
    {
        if a[i] != b[i] {
            return false;
        }
        i += 1;
    }
    assert(a@ =~= b@);
    true
}

/// A finite set of byte strings.
#[derive(Debug)]
pub struct ByteStringSet {
    items: Vec<Vec<u8>>,
}

impl View for ByteStringSet {
    type V = Set<Seq<u8>>;

    closed spec fn view(&self) -> Set<Seq<u8>> {
        self.elements().to_set()
    }
}

impl ByteStringSet {
    /// The members in insertion order.
    pub closed spec fn elements(&self) -> Seq<Seq<u8>> {
        self.items@.map_values(|k: Vec<u8>| k@)
    }

    #[verifier::type_invariant]
    spec fn distinct(self) -> bool {
        self.elements().no_duplicates()
    }

    /// The empty set.
    pub fn new() -> (s: Self)
        ensures
            s@ == Set::<Seq<u8>>::empty(),
    {
        let s = ByteStringSet { items: Vec::new() };
        assert(s.elements() =~= Seq::<Seq<u8>>::empty());
        assert(s@ =~= Set::<Seq<u8>>::empty());
        s
    }

    /// The set of the byte strings in `keys`.
    pub fn from_keys(keys: &Vec<Vec<u8>>) -> (s: Self)
        ensures
            s@ == keys@.map_values(|k: Vec<u8>| k@).to_set(),
    {
        let mut s = ByteStringSet::new();
        let mut i: usize = 0;
        assert(keys@.take(0).map_values(|k: Vec<u8>| k@).to_set() =~= Set::<Seq<u8>>::empty());
        while i < keys.len()
            invariant
                i <= keys@.len(),
                s@ == keys@.take(i as int).map_values(|k: Vec<u8>| k@).to_set(),
            decreases keys@.len() - i,
        {
            let key = keys[i].clone();
            proof {
                let before = keys@.take(i as int);
                let after = keys@.take(i + 1);
                assert(after =~= before.push(keys@[i as int]));
                assert(after.map_values(|k: Vec<u8>| k@) =~= before.map_values(|k: Vec<u8>| k@).push(
                    key@,
                ));
                before.map_values(|k: Vec<u8>| k@).lemma_push_to_set_commute(key@);
            }
            s.insert(key);
            i += 1;
        }
        assert(keys@.take(i as int) =~= keys@);
        s
    }

    fn position(&self, item: &[u8]) -> (r: Option<usize>)
        ensures
            match r {
                Some(i) => i < self.elements().len() && self.elements()[i as int] == item@,
                None => !self.elements().contains(item@),
            },
    {
        let mut i: usize = 0;
        while i < self.items.len()
            invariant
                i <= self.items@.len(),
                forall|j: int| 0 <= j < i ==> self.elements()[j] != item@,
            decreases self.items@.len() - i,
        {
            if bytes_equal(self.items[i].as_slice(), item) {
                return Some(i);
            }
            i += 1;
        }
        None
    }

    /// Membership.
    pub fn contains(&self, item: &[u8]) -> (r: bool)
        ensures
            r == self@.contains(item@),
    {
        self.position(item).is_some()
    }

    /// Adds `item`; says whether it was new.
    pub fn insert(&mut self, item: Vec<u8>) -> (added: bool)
        ensures
            final(self)@ == old(self)@.insert(item@),
            added == !old(self)@.contains(item@),
    {
        match self.position(item.as_slice()) {
            Some(_) => {
                assert(self@.insert(item@) =~= self@);
                false
            },
            None => {
                let ghost before = self.elements();
                proof {
                    use_type_invariant(&*self);
                    before.lemma_push_to_set_commute(item@);
                }
                let mut items: Vec<Vec<u8>> = Vec::new();
                core::mem::swap(&mut self.items, &mut items);
                items.push(item);
                proof {
                    let after = items@.map_values(|k: Vec<u8>| k@);
                    assert(after =~= before.push(item@));
                    assert(after.no_duplicates());
                }
                self.items = items;
                true
            },
        }
    }

    /// Takes `item` out; says whether it was there.
    pub fn remove(&mut self, item: &[u8]) -> (removed: bool)
        ensures
            final(self)@ == old(self)@.remove(item@),
            removed == old(self)@.contains(item@),
    {
        match self.position(item) {
            Some(i) => {
                let ghost before = self.elements();
                proof {
                    use_type_invariant(&*self);
                }
                let mut items: Vec<Vec<u8>> = Vec::new();
                core::mem::swap(&mut self.items, &mut items);
                items.remove(i);
                proof {
                    let after = items@.map_values(|k: Vec<u8>| k@);
                    assert(after =~= before.remove(i as int));
                }
                self.items = items;
                proof {
                    let after = self.elements();
                    assert(after =~= before.remove(i as int));
                    assert forall|x: Seq<u8>| after.to_set().contains(x) <==> before.to_set().remove(
                        item@,
                    ).contains(x) by {
                        if after.contains(x) {
                            let j = choose|j: int| 0 <= j < after.len() && after[j] == x;
                            if j < i {
                                assert(before[j] == x);
                            } else {
                                assert(before[j + 1] == x);
                            }
                        }
                        if before.contains(x) && x != item@ {
                            let j = choose|j: int| 0 <= j < before.len() && before[j] == x;
                            if j < i {
                                assert(after[j] == x);
                            } else {
                                assert(after[j - 1] == x);
                            }
                        }
                    }
                    assert(after.to_set() =~= before.to_set().remove(item@));
                }
                true
            },
            None => {
                assert(self@.remove(item@) =~= self@);
                false
            },
        }
    }

    /// The members, each once, in insertion order.
    pub fn to_vec(&self) -> (v: Vec<Vec<u8>>)
        ensures
            v@.map_values(|k: Vec<u8>| k@) == self.elements(),
            v@.map_values(|k: Vec<u8>| k@).to_set() == self@,
            v@.map_values(|k: Vec<u8>| k@).no_duplicates(),
    {
        proof {
            use_type_invariant(self);
        }
        let v = self.items.clone();
        assert(v@.map_values(|k: Vec<u8>| k@) =~= self.elements()) by {
            assert forall|i: int| 0 <= i < v@.len() implies v@[i]@ == self.items@[i]@ by {
                assert(vstd::pervasive::cloned(self.items@[i], v@[i]));
            }
        }
        v
    }

    /// The number of members.
    pub fn len(&self) -> (n: usize)
        ensures
            n == self@.len(),
            self@.finite(),
    {
        proof {
            use_type_invariant(self);
            self.elements().unique_seq_to_set();
            vstd::seq_lib::seq_to_set_is_finite(self.elements());
        }
        self.items.len()
    }
}

/// A finite map from strings to values.
#[derive(Debug)]
pub struct StringMap<V: View> {
    entries: Vec<(String, V)>,
}

/// The key of a binding.
pub open spec fn key_of<V>(e: (String, V)) -> Seq<char> {
    e.0@
}

impl<V: View> View for StringMap<V> {
    type V = Map<Seq<char>, V::V>;

    closed spec fn view(&self) -> Map<Seq<char>, V::V> {
        Map::new(
            |k: Seq<char>| self.keys().contains(k),
            |k: Seq<char>| self.entries@[self.slot(k)].1@,
        )
    }
}

impl<V: View> StringMap<V> {
    /// The keys in insertion order.
    pub closed spec fn keys(&self) -> Seq<Seq<char>> {
        self.entries@.map_values(|e: (String, V)| key_of(e))
    }

    /// The values in insertion order, each at the place of its key.
    pub closed spec fn values(&self) -> Seq<V> {
        self.entries@.map_values(|e: (String, V)| e.1)
    }

    /// Where `k` is kept, if it is a key.
    spec fn slot(&self, k: Seq<char>) -> int {
        choose|i: int| 0 <= i < self.keys().len() && self.keys()[i] == k
    }

    #[verifier::type_invariant]
    spec fn distinct(self) -> bool {
        self.keys().no_duplicates()
    }

    /// The empty map.
    pub fn new() -> (m: Self)
        ensures
            m@ == Map::<Seq<char>, V::V>::empty(),
    {
        let m = StringMap { entries: Vec::new() };
        assert(m.keys() =~= Seq::<Seq<char>>::empty());
        assert(m@ =~= Map::<Seq<char>, V::V>::empty());
        m
    }

    fn position(&self, key: &str) -> (r: Option<usize>)
        ensures
            match r {
                Some(i) => i < self.keys().len() && self.keys()[i as int] == key@,
                None => !self.keys().contains(key@),
            },
    {
        let mut i: usize = 0;
        while i < self.entries.len()
            invariant
                i <= self.entries@.len(),
                forall|j: int| 0 <= j < i ==> self.keys()[j] != key@,
            decreases self.entries@.len() - i,
        {
            if string_equal(self.entries[i].0.as_str(), key) {
                return Some(i);
            }
            i += 1;
        }
        None
    }

    /// Whether `key` is bound.
    pub fn contains_key(&self, key: &str) -> (r: bool)
        ensures
            r == self@.contains_key(key@),
    {
        self.position(key).is_some()
    }

    /// The value bound to `key`, if any.
    pub fn get(&self, key: &str) -> (r: Option<&V>)
        ensures
            match r {
                Some(v) => self@.contains_key(key@) && self@[key@] == v@,
                None => !self@.contains_key(key@),
            },
    {
        match self.position(key) {
            Some(i) => {
                proof {
                    use_type_invariant(self);
                    assert(self.keys()[i as int] == key@);
                    assert(self.slot(key@) == i);
                }
                Some(&self.entries[i].1)
            },
            None => None,
        }
    }

    /// Binds `key` to `value`, replacing an earlier binding.
    pub fn insert(&mut self, key: String, value: V)
        ensures
            final(self)@ == old(self)@.insert(key@, value@),
    {
        let ghost before = *self;
        proof {
            use_type_invariant(&*self);
        }
        match self.position(key.as_str()) {
            Some(i) => {
                let mut entries: Vec<(String, V)> = Vec::new();
                core::mem::swap(&mut self.entries, &mut entries);
                entries.set(i, (key, value));
                proof {
                    let after = entries@.map_values(|e: (String, V)| key_of(e));
                    assert(after =~= before.keys());
                }
                self.entries = entries;
                proof {
                    assert(self.keys() =~= before.keys());
                    assert forall|k: Seq<char>| self.keys().contains(k) implies #[trigger] self@[k]
                        == before@.insert(key@, value@)[k] by {
                        let j = self.slot(k);
                        assert(before.keys()[j] == k);
                        assert(before.slot(k) == j);
                    }
                    assert(self@ =~= before@.insert(key@, value@));
                }
            },
            None => {
                let mut entries: Vec<(String, V)> = Vec::new();
                core::mem::swap(&mut self.entries, &mut entries);
                entries.push((key, value));
                proof {
                    let after = entries@.map_values(|e: (String, V)| key_of(e));
                    assert(after =~= before.keys().push(key@));
                }
                self.entries = entries;
                proof {
                    assert(self.keys() =~= before.keys().push(key@));
                    assert forall|k: Seq<char>|
                        self.keys().contains(k) <==> before@.insert(key@, value@).contains_key(
                            k,
                        ) by {
                        vstd::seq_lib::lemma_seq_contains_after_push(before.keys(), key@, k);
                    }
                    assert forall|k: Seq<char>| self.keys().contains(k) implies #[trigger] self@[k]
                        == before@.insert(key@, value@)[k] by {
                        let j = self.slot(k);
                        if j < before.keys().len() {
                            assert(before.keys()[j] == k);
                            assert(before.slot(k) == j);
                        } else {
                            assert(k == key@);
                        }
                    }
                    assert(self@ =~= before@.insert(key@, value@));
                }
            },
        }
    }
}

/// The map that a list of bindings stands for.  Where a key occurs more
/// than once, its first binding counts.
pub open spec fn map_of<V: View>(entries: Seq<(String, V)>) -> Map<Seq<char>, V::V>
    decreases entries.len(),
{
    if entries.len() == 0 {
        Map::empty()
    } else {
        map_of(entries.drop_first()).insert(entries[0].0@, entries[0].1@)
    }
}

/// In the map of a list of bindings with distinct keys, every binding of
/// the list holds, and nothing else is bound.
pub proof fn lemma_map_of_distinct<V: View>(entries: Seq<(String, V)>)
    requires
        entries.map_values(|e: (String, V)| key_of(e)).no_duplicates(),
    ensures
        forall|i: int|
            0 <= i < entries.len() ==> map_of(entries).contains_key(#[trigger] entries[i].0@)
                && map_of(entries)[entries[i].0@] == entries[i].1@,
        forall|k: Seq<char>| #[trigger]
            map_of(entries).contains_key(k) ==> entries.map_values(
                |e: (String, V)| key_of(e),
            ).contains(k),
    decreases entries.len(),
{
    let keys = entries.map_values(|e: (String, V)| key_of(e));
    if entries.len() > 0 {
        let rest = entries.drop_first();
        let rest_keys = rest.map_values(|e: (String, V)| key_of(e));
        assert(rest_keys =~= keys.drop_first());
        assert(rest_keys.no_duplicates()) by {
            assert forall|i: int, j: int|
                0 <= i < rest_keys.len() && 0 <= j < rest_keys.len() && i != j implies rest_keys[i]
                != rest_keys[j] by {
                assert(keys[i + 1] != keys[j + 1]);
            }
        }
        lemma_map_of_distinct(rest);
        assert forall|i: int| 0 <= i < entries.len() implies map_of(entries).contains_key(
            #[trigger] entries[i].0@,
        ) && map_of(entries)[entries[i].0@] == entries[i].1@ by {
            if i > 0 {
                assert(entries[i] == rest[i - 1]);
                assert(keys[i] != keys[0]);
                assert(map_of(rest).contains_key(rest[i - 1].0@));
            }
        }
        assert forall|k: Seq<char>| #[trigger] map_of(entries).contains_key(k) implies keys.contains(
            k,
        ) by {
            if k == entries[0].0@ {
                assert(keys[0] == k);
            } else {
                assert(map_of(rest).contains_key(k));
                let j = choose|j: int| 0 <= j < rest_keys.len() && rest_keys[j] == k;
                assert(keys[j + 1] == k);
            }
        }
    }
}

impl<V: View> StringMap<V> {
    /// The map of a list of bindings.
    pub fn from_entries(entries: Vec<(String, V)>) -> (m: Self)
        ensures
            m@ == map_of(entries@),
    {
        let ghost all = entries@;
        let mut entries = entries;
        let mut m = StringMap::new();
        assert(all.subrange(all.len() as int, all.len() as int) =~= Seq::<(String, V)>::empty());
        while entries.len() > 0
            invariant
                entries@.len() <= all.len(),
                entries@ == all.subrange(0, entries@.len() as int),
                m@ == map_of(all.subrange(entries@.len() as int, all.len() as int)),
            decreases entries@.len(),
        {
            let ghost n = entries@.len() as int;
            let entry = entries.pop().unwrap();
            proof {
                let suffix = all.subrange(n - 1, all.len() as int);
                assert(suffix.drop_first() =~= all.subrange(n, all.len() as int));
                assert(suffix[0] == entry);
                assert(entries@ =~= all.subrange(0, n - 1));
            }
            m.insert(entry.0, entry.1);
        }
        assert(all.subrange(0, all.len() as int) =~= all);
        m
    }

    /// The bindings in insertion order, the values cloned.
    pub fn to_entries(&self) -> (v: Vec<(String, V)>) where V: Clone
        ensures
            v@.len() == self.keys().len(),
            self.keys().len() == self.values().len(),
            self.keys().no_duplicates(),
            forall|i: int|
                0 <= i < v@.len() ==> (#[trigger] v@[i]).0@ == self.keys()[i]
                    && vstd::pervasive::cloned(self.values()[i], v@[i].1),
    {
        proof {
            use_type_invariant(self);
        }
        let mut v: Vec<(String, V)> = Vec::new();
        let mut i: usize = 0;
        while i < self.entries.len()
            invariant
                i <= self.entries@.len(),
                v@.len() == i,
                forall|j: int|
                    0 <= j < i ==> (#[trigger] v@[j]).0@ == self.keys()[j]
                        && vstd::pervasive::cloned(self.values()[j], v@[j].1),
            decreases self.entries@.len() - i,
        {
            let key = self.entries[i].0.clone();
            let value = self.entries[i].1.clone();
            v.push((key, value));
            i += 1;
        }
        v
    }

    /// A list of bindings that agrees key by key and value by value with
    /// the bindings of a map stands for that map.
    pub proof fn lemma_entries_model(&self, v: Seq<(String, V)>)
        requires
            self.keys().no_duplicates(),
            v.len() == self.keys().len(),
            self.keys().len() == self.values().len(),
            forall|i: int|
                0 <= i < v.len() ==> (#[trigger] v[i]).0@ == self.keys()[i] && v[i].1@
                    == self.values()[i]@,
        ensures
            map_of(v) == self@,
    {
        let keys = v.map_values(|e: (String, V)| key_of(e));
        assert(keys =~= self.keys());
        lemma_map_of_distinct(v);
        assert forall|k: Seq<char>| self@.contains_key(k) implies map_of(v).contains_key(k)
            && map_of(v)[k] == self@[k] by {
            let j = self.slot(k);
            assert(v[j].0@ == k);
            assert(self.values()[j] == self.entries@[j].1);
        }
        assert(map_of(v) =~= self@);
    }

    /// The number of bindings.  No key is bound twice, and the keys are
    /// exactly those of the view.
    pub fn len(&self) -> (n: usize)
        ensures
            n == self.keys().len(),
            self.keys().no_duplicates(),
            forall|k: Seq<char>| self@.contains_key(k) <==> self.keys().contains(k),
    {
        proof {
            use_type_invariant(self);
        }
        self.entries.len()
    }

    /// The `i`-th key in insertion order.
    pub fn key_at(&self, i: usize) -> (k: &String)
        requires
            i < self.keys().len(),
        ensures
            k@ == self.keys()[i as int],
            self@.contains_key(k@),
    {
        &self.entries[i].0
    }

    /// The value bound to the `i`-th key.
    pub fn value_at(&self, i: usize) -> (v: &V)
        requires
            i < self.keys().len(),
        ensures
            self@[self.keys()[i as int]] == v@,
    {
        proof {
            use_type_invariant(self);
            assert(self.slot(self.keys()[i as int]) == i);
        }
        &self.entries[i].1
    }
}

/// Compares two strings.
pub fn string_equal(a: &str, b: &str) -> (r: bool)
    ensures
        r == (a@ == b@),
{
    let x = a.as_bytes();
    let y = b.as_bytes();
    let r = bytes_equal(x, y);
    proof {
        vstd::utf8::encode_utf8_decode_utf8(a@);
        vstd::utf8::encode_utf8_decode_utf8(b@);
    }
    r
}

} // verus!
