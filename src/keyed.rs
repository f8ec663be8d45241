use crate::text::same_text;
use vstd::prelude::*;

verus! {

/// Values kept under text keys, each key at most once, in the order in which
/// the keys were first added.
#[derive(Debug)]
pub struct KeyedList<V> {
    entries: Vec<(String, V)>,
}

/// In a sequence without duplicates, an element's position is the one it
/// stands at.
proof fn lemma_position<T>(s: Seq<T>, i: int)
    requires
        s.no_duplicates(),
        0 <= i < s.len(),
    ensures
        s.contains(s[i]),
        s.index_of(s[i]) == i,
{
    assert(s[i] == s[i]);
    assert(s.contains(s[i]));
}

impl<V> KeyedList<V> {
    /// The keys, in order.
    pub closed spec fn keys(&self) -> Seq<Seq<char>> {
        self.entries@.map_values(|e: (String, V)| e.0@)
    }

    /// Each key stands once.
    pub closed spec fn wf(&self) -> bool {
        self.keys().no_duplicates()
    }

    /// An empty list.
    pub fn new() -> (r: Self)
        ensures
            r.wf(),
            r@ == Map::<Seq<char>, V>::empty(),
            r.keys().len() == 0,
    {
        let r = KeyedList { entries: Vec::new() };
        proof {
            assert(r@ =~= Map::<Seq<char>, V>::empty());
        }
        r
    }

    /// Where `key` stands, if anywhere.
    fn find(&self, key: &str) -> (r: Option<usize>)
        requires
            self.wf(),
        ensures
            match r {
                Some(i) => i < self.keys().len() && self.keys()[i as int] == key@
                    && self.keys().index_of(key@) == i,
                None => !self.keys().contains(key@),
            },
    {
        let mut i: usize = 0;
        while i < self.entries.len()
            invariant
                i <= self.entries@.len(),
                self.keys().no_duplicates(),
                forall|j: int| 0 <= j < i ==> self.keys()[j] != key@,
            decreases self.entries@.len() - i,
        {
            if same_text(self.entries[i].0.as_str(), key) {
                proof {
                    lemma_position(self.keys(), i as int);
                }
                return Some(i);
            }
            i = i + 1;
        }
        None
    }

    /// The number of keys.
    pub fn len(&self) -> (r: usize)
        requires
            self.wf(),
        ensures
            r == self.keys().len(),
            r == self@.len(),
    {
        proof {
            self.keys().unique_seq_to_set();
            assert(self@.dom() =~= self.keys().to_set());
        }
        self.entries.len()
    }

    /// The value under the `i`-th key.
    pub fn value_at(&self, i: usize) -> (r: &V)
        requires
            self.wf(),
            i < self.keys().len(),
        ensures
            self@.contains_key(self.keys()[i as int]),
            *r == self@[self.keys()[i as int]],
    {
        proof {
            lemma_position(self.keys(), i as int);
        }
        &self.entries[i].1
    }

    pub fn contains_key(&self, key: &str) -> (r: bool)
        requires
            self.wf(),
        ensures
            r == self@.contains_key(key@),
    {
        self.find(key).is_some()
    }

    /// The value under `key`, if any.
    pub fn get(&self, key: &str) -> (r: Option<&V>)
        requires
            self.wf(),
        ensures
            match r {
                Some(v) => self@.contains_key(key@) && *v == self@[key@],
                None => !self@.contains_key(key@),
            },
    {
        match self.find(key) {
            Some(i) => Some(&self.entries[i].1),
            None => None,
        }
    }

    /// Puts `value` under `key`, replacing what stood there; a new key goes
    /// last.
    pub fn insert(&mut self, key: String, value: V)
        requires
            old(self).wf(),
        ensures
            final(self).wf(),
            final(self)@ == old(self)@.insert(key@, value),
            final(self).keys() == if old(self)@.contains_key(key@) {
                old(self).keys()
            } else {
                old(self).keys().push(key@)
            },
    {
        match self.find(key.as_str()) {
            Some(i) => {
                let ghost old_keys = self.keys();
                let ghost k = key@;
                self.entries[i] = (key, value);
                proof {
                    assert(self.keys() =~= old_keys);
                    assert forall|q: Seq<char>| #[trigger]
                        self@.contains_key(q) implies self@[q] == old(self)@.insert(k, value)[q] by {
                        if q != k {
                            let j = old_keys.index_of(q);
                            assert(old_keys.contains(q));
                            assert(0 <= j < old_keys.len() && old_keys[j] == q);
                            assert(j != i);
                        }
                    }
                    assert(self@ =~= old(self)@.insert(k, value));
                }
            },
            None => {
                let ghost old_keys = self.keys();
                let ghost k = key@;
                self.entries.push((key, value));
                proof {
                    assert(self.keys() =~= old_keys.push(k));
                    assert(self.keys().no_duplicates()) by {
                        assert forall|a: int, b: int|
                            0 <= a < self.keys().len() && 0 <= b < self.keys().len() && a != b
                                implies self.keys()[a] != self.keys()[b] by {
                            if a == old_keys.len() {
                                assert(old_keys[b] == self.keys()[b]);
                                if self.keys()[b] == k {
                                    assert(old_keys.contains(k));
                                }
                            } else if b == old_keys.len() {
                                assert(old_keys[a] == self.keys()[a]);
                                if self.keys()[a] == k {
                                    assert(old_keys.contains(k));
                                }
                            } else {
                                assert(old_keys[a] == self.keys()[a]);
                                assert(old_keys[b] == self.keys()[b]);
                            }
                        }
                    }
                    lemma_position(self.keys(), old_keys.len() as int);
                    assert forall|q: Seq<char>| #[trigger]
                        self@.contains_key(q) implies self@[q] == old(self)@.insert(k, value)[q] by {
                        if q != k {
                            assert(old_keys.contains(q)) by {
                                let j = self.keys().index_of(q);
                                assert(self.keys().contains(q));
                                assert(0 <= j < self.keys().len() && self.keys()[j] == q);
                                assert(old_keys[j] == q);
                            }
                            let j = old_keys.index_of(q);
                            assert(0 <= j < old_keys.len() && old_keys[j] == q);
                            lemma_position(self.keys(), j);
                        }
                    }
                    assert forall|q: Seq<char>|
                        #![auto]
                        old(self)@.insert(k, value).contains_key(q) implies self@.contains_key(q) by {
                        if q != k {
                            let j = old_keys.index_of(q);
                            assert(old_keys.contains(q));
                            assert(0 <= j < old_keys.len() && old_keys[j] == q);
                            assert(self.keys()[j] == q);
                        }
                    }
                    assert(self@ =~= old(self)@.insert(k, value));
                }
            },
        }
    }

    /// Takes `key` and its value out; says whether it was there.
    pub fn remove(&mut self, key: &str) -> (r: bool)
        requires
            old(self).wf(),
        ensures
            final(self).wf(),
            r == old(self)@.contains_key(key@),
            final(self)@ == old(self)@.remove(key@),
    {
        match self.find(key) {
            Some(i) => {
                let ghost old_keys = self.keys();
                let ghost old_entries = self.entries@;
                let ghost k = key@;
                let _ = self.entries.remove(i);
                proof {
                    let new_keys = self.keys();
                    assert(new_keys.len() == old_keys.len() - 1);
                    assert forall|a: int| 0 <= a < new_keys.len() implies #[trigger] new_keys[a] == (
                    if a < i {
                        old_keys[a]
                    } else {
                        old_keys[a + 1]
                    }) && self.entries@[a] == (if a < i {
                        old_entries[a]
                    } else {
                        old_entries[a + 1]
                    }) by {}
                    assert(new_keys.no_duplicates()) by {
                        assert forall|a: int, b: int|
                            0 <= a < new_keys.len() && 0 <= b < new_keys.len() && a != b
                                implies new_keys[a] != new_keys[b] by {
                            let oa = if a < i { a } else { a + 1 };
                            let ob = if b < i { b } else { b + 1 };
                            assert(new_keys[a] == old_keys[oa]);
                            assert(new_keys[b] == old_keys[ob]);
                        }
                    }
                    assert forall|q: Seq<char>|
                        #![auto]
                        self@.contains_key(q) <==> old(self)@.remove(k).contains_key(q) by {
                        if self@.contains_key(q) {
                            let j = new_keys.index_of(q);
                            assert(new_keys.contains(q));
                            let oj = if j < i { j } else { j + 1 };
                            assert(new_keys[j] == old_keys[oj]);
                            assert(old_keys.contains(q));
                            assert(oj != i);
                        }
                        if old(self)@.remove(k).contains_key(q) {
                            assert(old_keys.contains(q));
                            let oj = old_keys.index_of(q);
                            assert(old_keys[oj] == q);
                            assert(oj != i);
                            let j = if oj < i { oj } else { oj - 1 };
                            assert(new_keys[j] == q);
                        }
                    }
                    assert forall|q: Seq<char>| #[trigger]
                        self@.contains_key(q) implies self@[q] == old(self)@[q] by {
                        let j = new_keys.index_of(q);
                        assert(new_keys.contains(q));
                        let oj = if j < i { j } else { j + 1 };
                        assert(new_keys[j] == old_keys[oj]);
                        lemma_position(old_keys, oj);
                    }
                    assert(self@ =~= old(self)@.remove(k));
                }
                true
            },
            None => {
                proof {
                    assert(old(self)@.remove(key@) =~= old(self)@);
                }
                false
            },
        }
    }

    /// The value under `key`, to change in place, if any.
    pub fn get_mut(&mut self, key: &str) -> (r: Option<&mut V>)
        requires
            old(self).wf(),
        ensures
            r is Some <==> old(self)@.contains_key(key@),
            match r {
                Some(v) => *v == old(self)@[key@] && final(self).wf() && final(self)@ == old(
                    self,
                )@.insert(key@, *final(v)) && final(self).keys() == old(self).keys(),
                None => *final(self) == *old(self),
            },
    {
        match self.find(key) {
            Some(i) => {
                let ghost old_keys = self.keys();
                let ghost k = key@;
                let v = &mut self.entries[i].1;
                proof {
                    assert(after_borrow(self).keys() =~= old_keys);
                }
                Some(v)
            },
            None => None,
        }
    }
}

impl<V> View for KeyedList<V> {
    type V = Map<Seq<char>, V>;

    closed spec fn view(&self) -> Map<Seq<char>, V> {
        Map::new(
            |k: Seq<char>| self.keys().contains(k),
            |k: Seq<char>| self.entries@[self.keys().index_of(k)].1,
        )
    }
}

} // verus!
