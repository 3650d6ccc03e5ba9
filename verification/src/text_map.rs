//! Maps from texts to texts.

use vstd::prelude::*;

use crate::assoc::{
    assoc_map, distinct_keys, lemma_assoc, lemma_assoc_push, lemma_assoc_remove,
    lemma_assoc_update,
};
use crate::text::text_eq;

verus! {

/// A map from texts to texts, in the order in which the keys came.
#[derive(Debug)]
pub struct TextMap {
    entries: Vec<(String, String)>,
}

/// The views of pairs of strings.
pub open spec fn text_pairs(entries: Seq<(String, String)>) -> Seq<(Seq<char>, Seq<char>)> {
    Seq::new(entries.len(), |i: int| (entries[i].0@, entries[i].1@))
}

impl View for TextMap {
    type V = Map<Seq<char>, Seq<char>>;

    closed spec fn view(&self) -> Map<Seq<char>, Seq<char>> {
        assoc_map(text_pairs(self.entries@))
    }
}

impl Default for TextMap {
    /// The empty map.
    fn default() -> (map: Self)
        ensures
            map.wf(),
            map@ == Map::<Seq<char>, Seq<char>>::empty(),
    {
        TextMap { entries: Vec::new() }
    }
}

impl Clone for TextMap {
    fn clone(&self) -> (copy: Self)
        ensures
            copy.pairs() == self.pairs(),
            copy@ == self@,
            self.wf() ==> copy.wf(),
    {
        let n: usize = self.entries.len();
        let mut entries: Vec<(String, String)> = Vec::new();
        for i in 0..n
            invariant
                n == self.entries@.len(),
                entries@.len() == i,
                forall|j: int|
                    0 <= j < i ==> (#[trigger] entries@[j]).0@ == self.entries@[j].0@
                        && entries@[j].1@ == self.entries@[j].1@,
        {
            entries.push((self.entries[i].0.clone(), self.entries[i].1.clone()));
        }
        assert(text_pairs(entries@) =~= text_pairs(self.entries@));
        TextMap { entries }
    }
}

impl TextMap {
    /// No key occurs twice.
    pub closed spec fn wf(&self) -> bool {
        distinct_keys(text_pairs(self.entries@))
    }

    /// The pairs of the map.
    pub closed spec fn pairs(&self) -> Seq<(Seq<char>, Seq<char>)> {
        text_pairs(self.entries@)
    }

    /// Where a key stands.
    fn position(&self, key: &str) -> (r: Option<usize>)
        requires
            self.wf(),
        ensures
            match r {
                Some(i) => i < self.entries@.len() && self.entries@[i as int].0@ == key@
                    && self@.contains_key(key@) && self@[key@] == self.entries@[i as int].1@,
                None => !self@.contains_key(key@),
            },
    {
        let ghost pairs = text_pairs(self.entries@);
        proof {
            lemma_assoc(pairs);
        }
        let n: usize = self.entries.len();
        for i in 0..n
            invariant
                n == self.entries@.len(),
                pairs == text_pairs(self.entries@),
                forall|i: int|
                    0 <= i < pairs.len() ==> assoc_map(pairs).contains_key((#[trigger] pairs[i]).0)
                        && assoc_map(pairs)[pairs[i].0] == pairs[i].1,
                forall|j: int| 0 <= j < i ==> (#[trigger] pairs[j]).0 != key@,
        {
            assert(pairs[i as int] == (self.entries@[i as int].0@, self.entries@[i as int].1@));
            if text_eq(self.entries[i].0.as_str(), key) {
                return Some(i);
            }
        }
        None
    }

    /// The text under a key.
    pub fn get(&self, key: &str) -> (r: Option<String>)
        requires
            self.wf(),
        ensures
            match r {
                Some(value) => self@.contains_key(key@) && value@ == self@[key@],
                None => !self@.contains_key(key@),
            },
    {
        match self.position(key) {
            Some(i) => Some(self.entries[i].1.clone()),
            None => None,
        }
    }

    /// Puts a text under a key, in place of any other there.
    pub fn insert(&mut self, key: &str, value: &str)
        requires
            old(self).wf(),
        ensures
            final(self).wf(),
            final(self)@ == old(self)@.insert(key@, value@),
    {
        let ghost pairs = text_pairs(self.entries@);
        match self.position(key) {
            Some(i) => {
                self.entries.set(i, (key.to_owned(), value.to_owned()));
                proof {
                    lemma_assoc_update(pairs, i as int, value@);
                    assert(text_pairs(self.entries@) =~= pairs.update(
                        i as int,
                        (pairs[i as int].0, value@),
                    ));
                }
            },
            None => {
                self.entries.push((key.to_owned(), value.to_owned()));
                proof {
                    lemma_assoc_push(pairs, key@, value@);
                    assert(text_pairs(self.entries@) =~= pairs.push((key@, value@)));
                }
            },
        }
    }

    /// Puts a text under a key unless there is one.
    pub fn insert_if_absent(&mut self, key: &str, value: &str)
        requires
            old(self).wf(),
        ensures
            final(self).wf(),
            final(self)@ == if old(self)@.contains_key(key@) {
                old(self)@
            } else {
                old(self)@.insert(key@, value@)
            },
    {
        if self.position(key).is_none() {
            self.insert(key, value);
        }
    }

    /// Removes a key.
    pub fn remove(&mut self, key: &str)
        requires
            old(self).wf(),
        ensures
            final(self).wf(),
            final(self)@ == old(self)@.remove(key@),
    {
        match self.position(key) {
            Some(i) => {
                let ghost pairs = text_pairs(self.entries@);
                let _ = self.entries.remove(i);
                proof {
                    lemma_assoc_remove(pairs, i as int);
                    assert(text_pairs(self.entries@) =~= pairs.remove(i as int));
                }
            },
            None => {
                assert(self@.remove(key@) =~= self@);
            },
        }
    }

    /// How many keys there are.
    pub fn len(&self) -> (n: usize)
        requires
            self.wf(),
        ensures
            n == self@.dom().len(),
            n == self.pairs().len(),
    {
        proof {
            lemma_assoc(text_pairs(self.entries@));
        }
        self.entries.len()
    }

    /// The key and text at a position.
    pub fn entry(&self, i: usize) -> (r: (String, String))
        requires
            self.wf(),
            i < self.pairs().len(),
        ensures
            (r.0@, r.1@) == self.pairs()[i as int],
            self@.contains_key(r.0@),
            self@[r.0@] == r.1@,
    {
        proof {
            lemma_assoc(text_pairs(self.entries@));
            assert(text_pairs(self.entries@)[i as int] == (
                self.entries@[i as int].0@,
                self.entries@[i as int].1@,
            ));
        }
        (self.entries[i].0.clone(), self.entries[i].1.clone())
    }
}

} // verus!
