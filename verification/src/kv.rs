//! String-to-string maps used for payloads, environment tables and
//! parameter tables.
//!
//! A `KvMap` is an association list; its view is the corresponding
//! mathematical `Map<Seq<char>, Seq<char>>`, where a later binding of a key
//! shadows an earlier one.

use vstd::prelude::*;

verus! {

/// The map described by an association list; later entries win.
pub open spec fn kv_as_map(s: Seq<(String, String)>) -> Map<Seq<char>, Seq<char>>
    decreases s.len(),
{
    if s.len() == 0 {
        Map::empty()
    } else {
        kv_as_map(s.drop_last()).insert(s.last().0@, s.last().1@)
    }
}

proof fn lemma_kv_contains(s: Seq<(String, String)>, k: Seq<char>)
    ensures
        kv_as_map(s).contains_key(k) <==> (exists|i: int| 0 <= i < s.len() && s[i].0@ == k),
    decreases s.len(),
{
    if s.len() > 0 {
        lemma_kv_contains(s.drop_last(), k);
        if kv_as_map(s).contains_key(k) {
            if s.last().0@ != k {
                let i = choose|i: int| 0 <= i < s.drop_last().len() && s.drop_last()[i].0@ == k;
                assert(s[i].0@ == k);
            } else {
                assert(s[s.len() - 1].0@ == k);
            }
        }
        if exists|i: int| 0 <= i < s.len() && s[i].0@ == k {
            let i = choose|i: int| 0 <= i < s.len() && s[i].0@ == k;
            if i < s.len() - 1 {
                assert(s.drop_last()[i].0@ == k);
            }
        }
    }
}

proof fn lemma_kv_get(s: Seq<(String, String)>, k: Seq<char>, i: int)
    requires
        0 <= i < s.len(),
        s[i].0@ == k,
        forall|j: int| i < j < s.len() ==> s[j].0@ != k,
    ensures
        kv_as_map(s).contains_key(k),
        kv_as_map(s)[k] == s[i].1@,
    decreases s.len(),
{
    if i == s.len() - 1 {
    } else {
        assert(s.drop_last()[i] == s[i]);
        assert(forall|j: int| i < j < s.drop_last().len() ==> s.drop_last()[j] == s[j]);
        lemma_kv_get(s.drop_last(), k, i);
        assert(s.last().0@ != k);
    }
}

/// A string-keyed, string-valued map, viewed as `Map<Seq<char>, Seq<char>>`.
pub struct KvMap {
    entries: Vec<(String, String)>,
}

impl View for KvMap {
    type V = Map<Seq<char>, Seq<char>>;

    closed spec fn view(&self) -> Map<Seq<char>, Seq<char>> {
        kv_as_map(self.entries@)
    }
}

impl KvMap {
    /// An empty map.
    pub fn new() -> (r: KvMap)
        ensures
            r@ == Map::<Seq<char>, Seq<char>>::empty(),
    {
        KvMap { entries: Vec::new() }
    }

    /// Looks the key up; returns the value currently bound to it, if any.
    pub fn get(&self, key: &String) -> (r: Option<&String>)
        ensures
            match r {
                Some(v) => self@.contains_key(key@) && v@ == self@[key@],
                None => !self@.contains_key(key@),
            },
    {
        let n = self.entries.len();
        let mut idx: usize = n;
        while idx > 0
            invariant
                n == self.entries.len(),
                idx <= n,
                forall|j: int| idx <= j < n ==> self.entries@[j].0@ != key@,
            decreases idx,
        {
            idx -= 1;
            if self.entries[idx].0 == *key {
                proof {
                    lemma_kv_get(self.entries@, key@, idx as int);
                }
                return Some(&self.entries[idx].1);
            }
        }
        proof {
            lemma_kv_contains(self.entries@, key@);
        }
        None
    }

    /// True when the key is bound.
    pub fn contains_key(&self, key: &String) -> (r: bool)
        ensures
            r == self@.contains_key(key@),
    {
        self.get(key).is_some()
    }

    /// Binds the key to the value, shadowing any earlier binding.
    pub fn insert(&mut self, key: String, value: String)
        ensures
            final(self)@ == old(self)@.insert(key@, value@),
    {
        proof {
            assert(self.entries@.push((key, value)).drop_last() =~= self.entries@);
        }
        self.entries.push((key, value));
    }

    /// The entries as a vector of pairs, in binding order (later wins).
    pub fn pairs(&self) -> (r: &Vec<(String, String)>)
        ensures
            kv_as_map(r@) == self@,
    {
        &self.entries
    }
}

} // verus!
