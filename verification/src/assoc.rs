use vstd::prelude::*;

verus! {

/// The keys of a list of entries, each taken by its text.
pub open spec fn keys_of<T>(s: Seq<(String, T)>) -> Seq<Seq<char>> {
    s.map_values(|e: (String, T)| e.0@)
}

/// The position of an entry whose key reads `k` (meaningful when there is one).
pub open spec fn position_of<T>(s: Seq<(String, T)>, k: Seq<char>) -> int {
    choose|i: int| 0 <= i < s.len() && s[i].0@ == k
}

/// The map that a list of entries with distinct keys stands for.
pub open spec fn map_of<T>(s: Seq<(String, T)>) -> Map<Seq<char>, T> {
    Map::new(|k: Seq<char>| keys_of(s).contains(k), |k: Seq<char>| s[position_of(s, k)].1)
}

/// A key is in the map exactly when some entry carries it.
pub proof fn lemma_map_of_dom<T>(s: Seq<(String, T)>, k: Seq<char>)
    ensures
        map_of(s).dom().contains(k) <==> exists|i: int| 0 <= i < s.len() && s[i].0@ == k,
{
    if map_of(s).dom().contains(k) {
        let i = choose|i: int| 0 <= i < keys_of(s).len() && keys_of(s)[i] == k;
        assert(s[i].0@ == k);
    }
    if exists|i: int| 0 <= i < s.len() && s[i].0@ == k {
        let i = choose|i: int| 0 <= i < s.len() && s[i].0@ == k;
        assert(keys_of(s)[i] == k);
    }
}

/// With distinct keys, every entry is what the map holds at its key.
pub proof fn lemma_map_of_entry<T>(s: Seq<(String, T)>, i: int)
    requires
        keys_of(s).no_duplicates(),
        0 <= i < s.len(),
    ensures
        map_of(s).dom().contains(s[i].0@),
        map_of(s)[s[i].0@] == s[i].1,
{
    let k = s[i].0@;
    assert(keys_of(s)[i] == k);
    let j = position_of(s, k);
    assert(keys_of(s)[j] == keys_of(s)[i]);
}

/// Appending an entry with a new key adds that key.
pub proof fn lemma_map_of_push<T>(s: Seq<(String, T)>, key: String, value: T)
    requires
        keys_of(s).no_duplicates(),
        !keys_of(s).contains(key@),
    ensures
        keys_of(s.push((key, value))) == keys_of(s).push(key@),
        keys_of(s.push((key, value))).no_duplicates(),
        map_of(s.push((key, value))) == map_of(s).insert(key@, value),
{
    let t = s.push((key, value));
    assert(keys_of(t) =~= keys_of(s).push(key@));
    assert forall|k: Seq<char>| #[trigger] map_of(t).dom().contains(k) <==> map_of(s).insert(key@, value).dom().contains(k) by {
        lemma_map_of_dom(t, k);
        lemma_map_of_dom(s, k);
        if exists|i: int| 0 <= i < s.len() && s[i].0@ == k {
            let i = choose|i: int| 0 <= i < s.len() && s[i].0@ == k;
            assert(t[i].0@ == k);
        }
        if k == key@ {
            assert(t[s.len() as int].0@ == k);
        }
        if exists|i: int| 0 <= i < t.len() && t[i].0@ == k {
            let i = choose|i: int| 0 <= i < t.len() && t[i].0@ == k;
            if i < s.len() {
                assert(s[i].0@ == k);
            }
        }
    }
    assert forall|k: Seq<char>| #[trigger] map_of(t).dom().contains(k) implies map_of(t)[k] == map_of(s).insert(key@, value)[k] by {
        lemma_map_of_dom(t, k);
        let i = choose|i: int| 0 <= i < t.len() && t[i].0@ == k;
        lemma_map_of_entry(t, i);
        if i < s.len() {
            lemma_map_of_entry(s, i);
            assert(keys_of(s)[i] == k);
        }
    }
    assert(map_of(t) =~= map_of(s).insert(key@, value));
}

/// Replacing the entry at a position by one with the same key updates that key.
pub proof fn lemma_map_of_update<T>(s: Seq<(String, T)>, i: int, key: String, value: T)
    requires
        keys_of(s).no_duplicates(),
        0 <= i < s.len(),
        s[i].0@ == key@,
    ensures
        keys_of(s.update(i, (key, value))) == keys_of(s),
        map_of(s.update(i, (key, value))) == map_of(s).insert(key@, value),
{
    let t = s.update(i, (key, value));
    assert(keys_of(t) =~= keys_of(s));
    lemma_map_of_entry(s, i);
    assert forall|k: Seq<char>| #[trigger] map_of(t).dom().contains(k) <==> map_of(s).insert(key@, value).dom().contains(k) by {
        assert(keys_of(t) == keys_of(s));
    }
    assert forall|k: Seq<char>| #[trigger] map_of(t).dom().contains(k) implies map_of(t)[k] == map_of(s).insert(key@, value)[k] by {
        lemma_map_of_dom(t, k);
        let j = choose|j: int| 0 <= j < t.len() && t[j].0@ == k;
        lemma_map_of_entry(t, j);
        if j != i {
            lemma_map_of_entry(s, j);
            assert(keys_of(s)[j] != keys_of(s)[i]);
            assert(keys_of(s)[j] == k);
        }
    }
    assert(map_of(t) =~= map_of(s).insert(key@, value));
}

/// Removing the entry at a position removes its key.
pub proof fn lemma_map_of_remove<T>(s: Seq<(String, T)>, i: int)
    requires
        keys_of(s).no_duplicates(),
        0 <= i < s.len(),
    ensures
        keys_of(s.remove(i)) == keys_of(s).remove(i),
        keys_of(s.remove(i)).no_duplicates(),
        map_of(s.remove(i)) == map_of(s).remove(s[i].0@),
{
    let t = s.remove(i);
    let key = s[i].0@;
    assert(keys_of(t) =~= keys_of(s).remove(i));
    assert forall|a: int, b: int| 0 <= a < keys_of(t).len() && 0 <= b < keys_of(t).len() && a != b
        implies keys_of(t)[a] != keys_of(t)[b] by {
        let a2 = if a < i { a } else { a + 1 };
        let b2 = if b < i { b } else { b + 1 };
        assert(keys_of(t)[a] == keys_of(s)[a2]);
        assert(keys_of(t)[b] == keys_of(s)[b2]);
    }
    assert forall|k: Seq<char>| #[trigger] map_of(t).dom().contains(k) <==> map_of(s).remove(key).dom().contains(k) by {
        lemma_map_of_dom(t, k);
        lemma_map_of_dom(s, k);
        if exists|j: int| 0 <= j < t.len() && t[j].0@ == k {
            let j = choose|j: int| 0 <= j < t.len() && t[j].0@ == k;
            let j2 = if j < i { j } else { j + 1 };
            assert(s[j2].0@ == k);
            assert(keys_of(s)[j2] == k);
            assert(keys_of(s)[i] == key);
        }
        if k != key && exists|j: int| 0 <= j < s.len() && s[j].0@ == k {
            let j = choose|j: int| 0 <= j < s.len() && s[j].0@ == k;
            let j2 = if j < i { j } else { j - 1 };
            assert(t[j2].0@ == k);
        }
    }
    assert forall|k: Seq<char>| #[trigger] map_of(t).dom().contains(k) implies map_of(t)[k] == map_of(s).remove(key)[k] by {
        lemma_map_of_dom(t, k);
        let j = choose|j: int| 0 <= j < t.len() && t[j].0@ == k;
        lemma_map_of_entry(t, j);
        let j2 = if j < i { j } else { j + 1 };
        lemma_map_of_entry(s, j2);
    }
    assert(map_of(t) =~= map_of(s).remove(key));
}

/// A finite map from strings to values, kept as a list of entries whose keys are
/// distinct; the list keeps the order in which keys were first added.
///
/// A `std::collections::HashMap<String, _>` is not used here: vstd specifies
/// its methods only for key types that obey its key model
/// (`vstd::std_specs::hash::obeys_key_model`), which vstd establishes for
/// integers and `bool` but not for `String`, so nothing could be proved of
/// such a map without assuming that model. The distinctness of the keys is
/// this type's invariant.
#[derive(Debug)]
pub struct Assoc<T> {
    items: Vec<(String, T)>,
}

impl<T: Clone> Clone for Assoc<T> {
    /// The same keys in the same order, each with a clone of its value.
    fn clone(&self) -> (c: Self)
        ensures
            c.key_order() == self.key_order(),
            c@.dom() == self@.dom(),
            forall|k: Seq<char>| #[trigger] self@.dom().contains(k) ==> cloned::<T>(self@[k], c@[k]),
    {
        proof {
            use_type_invariant(self);
        }
        let mut items: Vec<(String, T)> = Vec::new();
        let mut i: usize = 0;
        while i < self.items.len()
            invariant
                i <= self.items@.len(),
                items@.len() == i,
                forall|j: int| 0 <= j < i ==> #[trigger] items@[j].0@ == self.items@[j].0@,
                forall|j: int| 0 <= j < i ==> cloned::<T>(self.items@[j].1, #[trigger] items@[j].1),
            decreases self.items@.len() - i,
        {
            let key = self.items[i].0.clone();
            let value = self.items[i].1.clone();
            items.push((key, value));
            i = i + 1;
        }
        assert(keys_of(items@) =~= keys_of(self.items@));
        proof {
            assert forall|k: Seq<char>| #[trigger] map_of(self.items@).dom().contains(k) implies map_of(items@).dom().contains(k)
                && cloned::<T>(map_of(self.items@)[k], map_of(items@)[k]) by {
                lemma_map_of_dom(self.items@, k);
                let j = choose|j: int| 0 <= j < self.items@.len() && self.items@[j].0@ == k;
                lemma_map_of_entry(self.items@, j);
                lemma_map_of_entry(items@, j);
            }
            assert forall|k: Seq<char>| #[trigger] map_of(items@).dom().contains(k) implies map_of(self.items@).dom().contains(k) by {
                lemma_map_of_dom(items@, k);
                let j = choose|j: int| 0 <= j < items@.len() && items@[j].0@ == k;
                lemma_map_of_entry(self.items@, j);
            }
            assert(map_of(items@).dom() =~= map_of(self.items@).dom());
        }
        Assoc { items }
    }
}

impl<T> View for Assoc<T> {
    type V = Map<Seq<char>, T>;

    closed spec fn view(&self) -> Map<Seq<char>, T> {
        map_of(self.items@)
    }
}

impl<T> Assoc<T> {
    /// No key occurs twice.
    #[verifier::type_invariant]
    spec fn wf(self) -> bool {
        keys_of(self.items@).no_duplicates()
    }

    /// The keys in the order in which they are kept.
    pub closed spec fn key_order(self) -> Seq<Seq<char>> {
        keys_of(self.items@)
    }

    pub fn new() -> (a: Self)
        ensures
            a@ == Map::<Seq<char>, T>::empty(),
    {
        let a = Assoc { items: Vec::new() };
        assert(map_of(a.items@) =~= Map::<Seq<char>, T>::empty());
        a
    }

    /// The position of the entry for `key`, if there is one.
    fn find(&self, key: &String) -> (r: Option<usize>)
        ensures
            match r {
                Some(i) => i < self.items@.len() && self.items@[i as int].0@ == key@
                    && self@.dom().contains(key@),
                None => !self@.dom().contains(key@),
            },
    {
        proof {
            use_type_invariant(self);
        }
        let mut i: usize = 0;
        while i < self.items.len()
            invariant
                i <= self.items@.len(),
                keys_of(self.items@).no_duplicates(),
                forall|j: int| 0 <= j < i ==> self.items@[j].0@ != key@,
            decreases self.items@.len() - i,
        {
            if self.items[i].0 == *key {
                proof {
                    lemma_map_of_entry(self.items@, i as int);
                }
                return Some(i);
            }
            i = i + 1;
        }
        proof {
            lemma_map_of_dom(self.items@, key@);
        }
        None
    }

    pub fn contains_key(&self, key: &String) -> (r: bool)
        ensures
            r == self@.dom().contains(key@),
    {
        self.find(key).is_some()
    }

    pub fn get(&self, key: &String) -> (r: Option<&T>)
        ensures
            match r {
                Some(v) => self@.dom().contains(key@) && *v == self@[key@],
                None => !self@.dom().contains(key@),
            },
    {
        proof {
            use_type_invariant(self);
        }
        match self.find(key) {
            Some(i) => {
                proof {
                    lemma_map_of_entry(self.items@, i as int);
                }
                Some(&self.items[i].1)
            },
            None => None,
        }
    }

    /// Sets the value of `key`, adding the key if it is new.
    pub fn insert(&mut self, key: String, value: T)
        ensures
            final(self)@ == old(self)@.insert(key@, value),
    {
        proof {
            use_type_invariant(&*self);
        }
        let found = self.find(&key);
        let mut items: Vec<(String, T)> = Vec::new();
        std::mem::swap(&mut items, &mut self.items);
        match found {
            Some(i) => {
                proof {
                    lemma_map_of_update(items@, i as int, key, value);
                }
                items.set(i, (key, value));
            },
            None => {
                proof {
                    lemma_map_of_dom(items@, key@);
                    if keys_of(items@).contains(key@) {
                        let j = choose|j: int| 0 <= j < keys_of(items@).len() && keys_of(items@)[j] == key@;
                        assert(items@[j].0@ == key@);
                    }
                    lemma_map_of_push(items@, key, value);
                }
                items.push((key, value));
            },
        }
        self.items = items;
    }

    /// Takes the entry of `key` out of the map and hands back its value.
    pub fn remove(&mut self, key: &String) -> (r: Option<T>)
        ensures
            final(self)@ == old(self)@.remove(key@),
            match r {
                Some(v) => old(self)@.dom().contains(key@) && v == old(self)@[key@],
                None => !old(self)@.dom().contains(key@),
            },
    {
        proof {
            use_type_invariant(&*self);
        }
        match self.find(key) {
            Some(i) => {
                let mut items: Vec<(String, T)> = Vec::new();
                std::mem::swap(&mut items, &mut self.items);
                proof {
                    lemma_map_of_entry(items@, i as int);
                    lemma_map_of_remove(items@, i as int);
                }
                let (_, v) = items.remove(i);
                self.items = items;
                Some(v)
            },
            None => {
                assert(old(self)@.remove(key@) =~= old(self)@);
                None
            },
        }
    }

    /// The keys, each once, in the order in which they are kept: exactly the
    /// keys of the map.
    pub fn keys(&self) -> (r: Vec<String>)
        ensures
            r@.map_values(|s: String| s@) == self.key_order(),
            self.key_order().no_duplicates(),
            self.key_order().to_set() == self@.dom(),
    {
        proof {
            use_type_invariant(self);
        }
        let mut r: Vec<String> = Vec::new();
        let mut i: usize = 0;
        while i < self.items.len()
            invariant
                i <= self.items@.len(),
                r@.len() == i,
                forall|j: int| 0 <= j < i ==> #[trigger] r@[j]@ == self.items@[j].0@,
            decreases self.items@.len() - i,
        {
            r.push(self.items[i].0.clone());
            i = i + 1;
        }
        assert(r@.map_values(|s: String| s@) =~= keys_of(self.items@));
        assert forall|k: Seq<char>| #[trigger] self.key_order().to_set().contains(k) <==> self@.dom().contains(k) by {
        }
        assert(self.key_order().to_set() =~= self@.dom());
        r
    }
}

/// The entries of `t` whose value is at least `bound`.
pub open spec fn at_least(t: Map<Seq<char>, u128>, bound: int) -> Map<Seq<char>, u128> {
    t.restrict(t.dom().filter(|k: Seq<char>| t[k] >= bound))
}

impl Assoc<u128> {
    /// Keeps exactly the entries whose value is at least `bound`.
    pub fn retain_at_least(&mut self, bound: u128)
        ensures
            final(self)@ == at_least(old(self)@, bound as int),
    {
        proof {
            use_type_invariant(&*self);
        }
        let ghost before = self.items@;
        let mut kept: Vec<(String, u128)> = Vec::new();
        let mut i: usize = 0;
        while i < self.items.len()
            invariant
                self.items@ == before,
                keys_of(before).no_duplicates(),
                i <= before.len(),
                keys_of(kept@).no_duplicates(),
                forall|j: int| 0 <= j < kept@.len() ==> #[trigger] kept@[j].1 >= bound,
                forall|j: int| 0 <= j < kept@.len() ==> exists|m: int| 0 <= m < i && before[m] == #[trigger] kept@[j],
                forall|m: int| 0 <= m < i && before[m].1 >= bound ==> exists|j: int| 0 <= j < kept@.len() && #[trigger] kept@[j] == before[m],
            decreases before.len() - i,
        {
            let e = &self.items[i];
            if e.1 >= bound {
                proof {
                    assert forall|j: int| 0 <= j < kept@.len() implies kept@[j].0@ != before[i as int].0@ by {
                        let m = choose|m: int| 0 <= m < i && before[m] == kept@[j];
                        assert(keys_of(before)[m] != keys_of(before)[i as int]);
                    }
                    assert(!keys_of(kept@).contains(before[i as int].0@));
                    lemma_map_of_push(kept@, before[i as int].0, before[i as int].1);
                }
                let ghost old_kept = kept@;
                kept.push((e.0.clone(), e.1));
                proof {
                    assert(kept@[old_kept.len() as int] == before[i as int]);
                    assert forall|j: int| 0 <= j < kept@.len() implies exists|m: int| 0 <= m < i + 1 && before[m] == #[trigger] kept@[j] by {
                        if j < old_kept.len() {
                            assert(kept@[j] == old_kept[j]);
                        } else {
                            assert(before[i as int] == kept@[j]);
                        }
                    }
                    assert forall|m: int| 0 <= m < i + 1 && before[m].1 >= bound implies exists|j: int| 0 <= j < kept@.len() && #[trigger] kept@[j] == before[m] by {
                        if m < i {
                            let j = choose|j: int| 0 <= j < old_kept.len() && old_kept[j] == before[m];
                            assert(kept@[j] == before[m]);
                        } else {
                            assert(kept@[old_kept.len() as int] == before[m]);
                        }
                    }
                }
            }
            i = i + 1;
        }
        let ghost goal = map_of(before).restrict(map_of(before).dom().filter(|k: Seq<char>| map_of(before)[k] >= bound));
        proof {
            assert forall|k: Seq<char>| #[trigger] map_of(kept@).dom().contains(k) <==> goal.dom().contains(k) by {
                lemma_map_of_dom(kept@, k);
                lemma_map_of_dom(before, k);
                if exists|j: int| 0 <= j < kept@.len() && kept@[j].0@ == k {
                    let j = choose|j: int| 0 <= j < kept@.len() && kept@[j].0@ == k;
                    let m = choose|m: int| 0 <= m < before.len() && before[m] == kept@[j];
                    lemma_map_of_entry(before, m);
                }
                if goal.dom().contains(k) {
                    let m = choose|m: int| 0 <= m < before.len() && before[m].0@ == k;
                    lemma_map_of_entry(before, m);
                    let j = choose|j: int| 0 <= j < kept@.len() && kept@[j] == before[m];
                    assert(kept@[j].0@ == k);
                }
            }
            assert forall|k: Seq<char>| #[trigger] map_of(kept@).dom().contains(k) implies map_of(kept@)[k] == goal[k] by {
                lemma_map_of_dom(kept@, k);
                let j = choose|j: int| 0 <= j < kept@.len() && kept@[j].0@ == k;
                lemma_map_of_entry(kept@, j);
                let m = choose|m: int| 0 <= m < before.len() && before[m] == kept@[j];
                lemma_map_of_entry(before, m);
            }
            assert(map_of(kept@) =~= goal);
        }
        self.items = kept;
    }
}

impl Assoc<Assoc<u128>> {
    /// In every inner map, keeps exactly the entries whose value is at least `bound`.
    pub fn retain_all_at_least(&mut self, bound: u128)
        ensures
            final(self)@.dom() == old(self)@.dom(),
            forall|k: Seq<char>| #[trigger] final(self)@.dom().contains(k)
                ==> final(self)@[k]@ == at_least(old(self)@[k]@, bound as int),
    {
        proof {
            use_type_invariant(&*self);
        }
        let mut items: Vec<(String, Assoc<u128>)> = Vec::new();
        std::mem::swap(&mut items, &mut self.items);
        let ghost before = items@;
        let mut i: usize = 0;
        while i < items.len()
            invariant
                items@.len() == before.len(),
                i <= before.len(),
                keys_of(items@) == keys_of(before),
                keys_of(before).no_duplicates(),
                forall|j: int| i <= j < before.len() ==> #[trigger] items@[j] == before[j],
                forall|j: int| 0 <= j < i ==> (#[trigger] items@[j]).1@ == at_least(before[j].1@, bound as int),
            decreases before.len() - i,
        {
            let ghost prev = items@;
            let (k, mut t) = items.remove(i);
            t.retain_at_least(bound);
            items.insert(i, (k, t));
            proof {
                assert(items@ =~= prev.update(i as int, (k, t)));
                assert(keys_of(items@) =~= keys_of(before));
            }
            i = i + 1;
        }
        proof {
            let after = items@;
            assert forall|k: Seq<char>| #[trigger] map_of(after).dom().contains(k)
                implies map_of(after)[k]@ == at_least(map_of(before)[k]@, bound as int) by {
                lemma_map_of_dom(after, k);
                let j = choose|j: int| 0 <= j < after.len() && after[j].0@ == k;
                lemma_map_of_entry(after, j);
                assert(keys_of(after)[j] == keys_of(before)[j]);
                lemma_map_of_entry(before, j);
            }
            assert(map_of(after).dom() =~= map_of(before).dom());
        }
        self.items = items;
    }
}

} // verus!
