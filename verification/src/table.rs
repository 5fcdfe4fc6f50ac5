//! Tables keyed by buildable name. The value under a name is that of the
//! first entry with that name.
use vstd::prelude::*;

use crate::keys::{
    first_at, first_index, keys_of, position_of, Keyed, lemma_first_index, lemma_first_index_is, lemma_first_index_push,
    lemma_first_index_push_new,
};
use crate::text::text_of;

verus! {

impl<V> Keyed for (String, V) {
    open spec fn key_view(&self) -> Seq<char> {
        self.0@
    }

    fn key(&self) -> (r: &str) {
        self.0.as_str()
    }
}

/// A table from names to values.
pub struct NameTable<V> {
    entries: Vec<(String, V)>,
}

impl<V: DeepView> NameTable<V> {
    /// The names of the entries, in order.
    pub closed spec fn keys(self) -> Seq<Seq<char>> {
        keys_of(self.entries@)
    }

    /// The table as a map from names to the values' contents.
    pub closed spec fn contents(self) -> Map<Seq<char>, V::V> {
        Map::new(
            |n: Seq<char>| self.keys().contains(n),
            |n: Seq<char>| self.entries@[first_index(self.keys(), n)].1.deep_view(),
        )
    }

    /// An empty table.
    pub fn new() -> (r: Self)
        ensures
            r.contents() == Map::<Seq<char>, V::V>::empty(),
    {
        let r = NameTable { entries: Vec::new() };
        assert(r.contents() =~= Map::<Seq<char>, V::V>::empty());
        r
    }

    fn position(&self, name: &str) -> (r: Option<usize>)
        ensures
            r matches Some(i) ==> first_at(self.keys(), name@, i as int) && i < self.entries.len(),
            r is None ==> !self.keys().contains(name@),
    {
        position_of(&self.entries, name)
    }

    /// The value under `name`, if any.
    pub fn get(&self, name: &str) -> (r: Option<&V>)
        ensures
            r is None <==> !self.contents().contains_key(name@),
            r matches Some(v) ==> self.contents()[name@] == v.deep_view(),
    {
        match self.position(name) {
            Some(i) => {
                proof {
                    lemma_first_index_is(self.keys(), name@, i as int);
                }
                Some(&self.entries[i].1)
            },
            None => None,
        }
    }

    /// Stores `value` under `name`, replacing what was stored there.
    pub fn insert(&mut self, name: &str, value: V)
        ensures
            final(self).contents() == old(self).contents().insert(name@, value.deep_view()),
    {
        let ghost old_keys = self.keys();
        let ghost v = value.deep_view();
        match self.position(name) {
            Some(i) => {
                proof {
                    lemma_first_index_is(old_keys, name@, i as int);
                }
                self.entries.set(i, (text_of(name), value));
                proof {
                    assert(self.keys() =~= old_keys);
                    assert forall|p: Seq<char>| #[trigger]
                        self.contents().contains_key(p) && p != name@ implies self.contents()[p]
                        == old(self).contents()[p] by {
                        lemma_first_index(old_keys, p);
                    }
                }
            },
            None => {
                self.entries.push((text_of(name), value));
                proof {
                    assert(self.keys() =~= old_keys.push(name@));
                    lemma_first_index_push_new(old_keys, name@);
                    assert forall|p: Seq<char>| p != name@ implies (self.keys().contains(p)
                        <==> old_keys.contains(p)) by {
                        if self.keys().contains(p) {
                            let k = choose|k: int|
                                0 <= k < self.keys().len() && self.keys()[k] == p;
                            assert(old_keys[k] == p);
                        }
                        if old_keys.contains(p) {
                            let k = choose|k: int| 0 <= k < old_keys.len() && old_keys[k] == p;
                            assert(self.keys()[k] == p);
                        }
                    }
                    assert forall|p: Seq<char>|
                        p != name@ && #[trigger] old_keys.contains(p) implies self.contents()[p]
                        == old(self).contents()[p] by {
                        lemma_first_index_push(old_keys, name@, p);
                        lemma_first_index(old_keys, p);
                    }
                }
            },
        }
        assert(self.contents() =~= old(self).contents().insert(name@, v));
    }
}

impl NameTable<Vec<String>> {
    /// Appends `line` to the lines stored under `name`; returns whether there
    /// were lines stored under `name` (nothing changes when there were not).
    pub fn push_line(&mut self, name: &str, line: String) -> (r: bool)
        ensures
            r == old(self).contents().contains_key(name@),
            r ==> final(self).contents() == old(self).contents().insert(
                name@,
                old(self).contents()[name@].push(line@),
            ),
            !r ==> final(self).contents() == old(self).contents(),
    {
        match self.position(name) {
            Some(i) => {
                let ghost old_keys = self.keys();
                proof {
                    lemma_first_index_is(old_keys, name@, i as int);
                }
                let (key, mut lines) = self.entries.remove(i);
                let ghost old_lines = lines.deep_view();
                lines.push(line);
                assert(lines.deep_view() =~= old_lines.push(line@));
                self.entries.insert(i, (key, lines));
                proof {
                    assert(self.keys() =~= old_keys);
                    assert forall|p: Seq<char>| #[trigger]
                        self.contents().contains_key(p) && p != name@ implies self.contents()[p]
                        == old(self).contents()[p] by {
                        lemma_first_index(old_keys, p);
                    }
                    assert(self.contents() =~= old(self).contents().insert(
                        name@,
                        old(self).contents()[name@].push(line@),
                    ));
                }
                true
            },
            None => false,
        }
    }
}

} // verus!
