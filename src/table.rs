use vstd::prelude::*;

verus! {

/// A map from strings to values, kept as two parallel vectors.
///
/// Keys are unique; the abstract view is a `Map` from the key's characters to
/// the stored value.
pub struct StringTable<V> {
    keys: Vec<String>,
    values: Vec<V>,
    contents: Ghost<Map<Seq<char>, V>>,
}

impl<V> View for StringTable<V> {
    type V = Map<Seq<char>, V>;

    closed spec fn view(&self) -> Map<Seq<char>, V> {
        self.contents@
    }
}

impl<V> StringTable<V> {
    /// Keys and values line up, keys are distinct, and the ghost map holds
    /// exactly the stored pairs.
    pub closed spec fn wf(&self) -> bool {
        &&& self.keys@.len() == self.values@.len()
        &&& forall|i: int, j: int|
            0 <= i < self.keys@.len() && 0 <= j < self.keys@.len() && i != j
                ==> #[trigger] self.keys@[i]@ != #[trigger] self.keys@[j]@
        &&& forall|i: int|
            0 <= i < self.keys@.len() ==> self.contents@.contains_key(#[trigger] self.keys@[i]@)
                && self.contents@[self.keys@[i]@] == self.values@[i]
        &&& forall|k: Seq<char>|
            #[trigger] self.contents@.contains_key(k) ==> exists|i: int|
                0 <= i < self.keys@.len() && #[trigger] self.keys@[i]@ == k
    }

    pub fn new() -> (t: Self)
        ensures
            t.wf(),
            t@ == Map::<Seq<char>, V>::empty(),
    {
        StringTable { keys: Vec::new(), values: Vec::new(), contents: Ghost(Map::empty()) }
    }

    /// The position of `key`, if it is stored.
    fn find(&self, key: &String) -> (r: Option<usize>)
        requires
            self.wf(),
        ensures
            match r {
                Some(i) => i < self.keys@.len() && self.keys@[i as int]@ == key@,
                None => !self@.contains_key(key@),
            },
    {
        let mut i: usize = 0;
        while i < self.keys.len()
            invariant
                self.wf(),
                i <= self.keys@.len(),
                forall|j: int| 0 <= j < i ==> self.keys@[j]@ != key@,
            decreases self.keys@.len() - i,
        {
            if self.keys[i] == *key {
                return Some(i);
            }
            i = i + 1;
        }
        None
    }

    pub fn contains_key(&self, key: &String) -> (r: bool)
        requires
            self.wf(),
        ensures
            r == self@.contains_key(key@),
    {
        self.find(key).is_some()
    }

    pub fn get(&self, key: &String) -> (r: Option<&V>)
        requires
            self.wf(),
        ensures
            match r {
                Some(v) => self@.contains_key(key@) && *v == self@[key@],
                None => !self@.contains_key(key@),
            },
    {
        match self.find(key) {
            Some(i) => Some(&self.values[i]),
            None => None,
        }
    }

    /// Stores `value` under `key`, replacing what was there.
    pub fn insert(&mut self, key: String, value: V)
        requires
            old(self).wf(),
        ensures
            final(self).wf(),
            final(self)@ == old(self)@.insert(key@, value),
    {
        let ghost k = key@;
        let ghost new_map = self.contents@.insert(k, value);
        match self.find(&key) {
            Some(i) => {
                self.values.set(i, value);
                self.contents = Ghost(new_map);
                assert forall|j: int| 0 <= j < self.keys@.len() implies
                    #[trigger] self.contents@.contains_key(self.keys@[j]@)
                    && self.contents@[self.keys@[j]@] == self.values@[j] by {
                    if j != i {
                        assert(self.keys@[j]@ != k);
                    }
                }
                assert forall|q: Seq<char>| #[trigger] self.contents@.contains_key(q) implies exists|j: int|
                    0 <= j < self.keys@.len() && #[trigger] self.keys@[j]@ == q by {
                    if q == k {
                        assert(self.keys@[i as int]@ == q);
                    }
                }
            },
            None => {
                let ghost old_keys = self.keys@;
                let ghost old_map = self.contents@;
                self.keys.push(key);
                self.values.push(value);
                self.contents = Ghost(new_map);
                let ghost n = self.keys@.len() - 1;
                assert(self.keys@[n]@ == k);
                assert forall|j: int| 0 <= j < n implies #[trigger] self.keys@[j] == old_keys[j] by {}
                assert forall|q: Seq<char>| #[trigger] self.contents@.contains_key(q) implies exists|j: int|
                    0 <= j < self.keys@.len() && #[trigger] self.keys@[j]@ == q by {
                    if q == k {
                        assert(self.keys@[n]@ == q);
                    } else {
                        assert(old_map.contains_key(q));
                        let j = choose|j: int| 0 <= j < old_keys.len() && #[trigger] old_keys[j]@ == q;
                        assert(self.keys@[j] == old_keys[j]);
                    }
                }
            },
        }
    }

    /// Takes `key` out of the table, returning its value if it was there.
    pub fn remove(&mut self, key: &String) -> (r: Option<V>)
        requires
            old(self).wf(),
        ensures
            final(self).wf(),
            final(self)@ == old(self)@.remove(key@),
            match r {
                Some(v) => old(self)@.contains_key(key@) && v == old(self)@[key@],
                None => !old(self)@.contains_key(key@),
            },
    {
        match self.find(key) {
            Some(i) => {
                let ghost old_keys = self.keys@;
                let ghost old_values = self.values@;
                let ghost k = key@;
                let ghost new_map = self.contents@.remove(k);
                self.keys.remove(i);
                let v = self.values.remove(i);
                self.contents = Ghost(new_map);
                assert forall|a: int, b: int|
                    0 <= a < self.keys@.len() && 0 <= b < self.keys@.len() && a != b
                    implies self.keys@[a]@ != self.keys@[b]@ by {
                    let oa = if a < i { a } else { a + 1 };
                    let ob = if b < i { b } else { b + 1 };
                    assert(self.keys@[a] == old_keys[oa]);
                    assert(self.keys@[b] == old_keys[ob]);
                }
                assert forall|j: int| 0 <= j < self.keys@.len() implies
                    #[trigger] self.contents@.contains_key(self.keys@[j]@)
                    && self.contents@[self.keys@[j]@] == self.values@[j] by {
                    let oj = if j < i { j } else { j + 1 };
                    assert(self.keys@[j] == old_keys[oj]);
                    assert(self.values@[j] == old_values[oj]);
                    assert(old_keys[oj]@ != k);
                }
                assert forall|q: Seq<char>| #[trigger] self.contents@.contains_key(q) implies exists|j: int|
                    0 <= j < self.keys@.len() && #[trigger] self.keys@[j]@ == q by {
                    let oj = choose|oj: int| 0 <= oj < old_keys.len() && #[trigger] old_keys[oj]@ == q;
                    assert(oj != i);
                    let j = if oj < i { oj } else { oj - 1 };
                    assert(self.keys@[j] == old_keys[oj]);
                }
                Some(v)
            },
            None => {
                assert(self.contents@.remove(key@) =~= self.contents@);
                None
            },
        }
    }
}

} // verus!
