//! A small string-to-string table whose view is a `Map`.

use vstd::prelude::*;
use crate::text::str_eq;

verus! {

/// The map that a list of pairs denotes when later pairs win.
pub open spec fn pairs_map(s: Seq<(Seq<char>, Seq<char>)>) -> Map<Seq<char>, Seq<char>>
    decreases s.len(),
{
    if s.len() == 0 {
        Map::empty()
    } else {
        pairs_map(s.drop_last()).insert(s.last().0, s.last().1)
    }
}

/// `m` with each pair of `s` inserted in order (later pairs win).
pub open spec fn insert_all(m: Map<Seq<char>, Seq<char>>, s: Seq<(Seq<char>, Seq<char>)>) -> Map<Seq<char>, Seq<char>>
    decreases s.len(),
{
    if s.len() == 0 {
        m
    } else {
        insert_all(m, s.drop_last()).insert(s.last().0, s.last().1)
    }
}

/// No key occurs twice.
pub open spec fn unique_keys(s: Seq<(Seq<char>, Seq<char>)>) -> bool {
    forall|i: int, j: int| 0 <= i < j < s.len() ==> s[i].0 != s[j].0
}

pub proof fn lemma_pairs_map_absent(s: Seq<(Seq<char>, Seq<char>)>, k: Seq<char>)
    requires
        forall|i: int| 0 <= i < s.len() ==> s[i].0 != k,
    ensures
        !pairs_map(s).dom().contains(k),
    decreases s.len(),
{
    if s.len() > 0 {
        lemma_pairs_map_absent(s.drop_last(), k);
    }
}

pub proof fn lemma_pairs_map_at(s: Seq<(Seq<char>, Seq<char>)>, i: int)
    requires
        unique_keys(s),
        0 <= i < s.len(),
    ensures
        pairs_map(s).dom().contains(s[i].0),
        pairs_map(s)[s[i].0] == s[i].1,
    decreases s.len(),
{
    if i < s.len() - 1 {
        lemma_pairs_map_at(s.drop_last(), i);
    }
}

pub proof fn lemma_pairs_map_update(s: Seq<(Seq<char>, Seq<char>)>, i: int, v: Seq<char>)
    requires
        unique_keys(s),
        0 <= i < s.len(),
    ensures
        pairs_map(s.update(i, (s[i].0, v))) =~= pairs_map(s).insert(s[i].0, v),
    decreases s.len(),
{
    let t = s.update(i, (s[i].0, v));
    if i == s.len() - 1 {
        assert(t.drop_last() =~= s.drop_last());
    } else {
        assert(t.drop_last() =~= s.drop_last().update(i, (s[i].0, v)));
        lemma_pairs_map_update(s.drop_last(), i, v);
        assert(s.last().0 != s[i].0);
    }
}

/// A table of string keys to string values; each key occurs at most once.
pub struct StrTable {
    entries: Vec<(String, String)>,
}

impl StrTable {
    pub closed spec fn pairs(self) -> Seq<(Seq<char>, Seq<char>)> {
        self.entries@.map_values(|e: (String, String)| (e.0@, e.1@))
    }

    #[verifier::type_invariant]
    closed spec fn keys_unique(self) -> bool {
        unique_keys(self.pairs())
    }
}

impl View for StrTable {
    type V = Map<Seq<char>, Seq<char>>;

    closed spec fn view(&self) -> Map<Seq<char>, Seq<char>> {
        pairs_map(self.pairs())
    }
}

impl StrTable {
    /// An empty table.
    pub fn new() -> (t: Self)
        ensures
            t@ == Map::<Seq<char>, Seq<char>>::empty(),
    {
        let t = StrTable { entries: Vec::new() };
        assert(t.pairs() =~= Seq::<(Seq<char>, Seq<char>)>::empty());
        t
    }

    /// Where `k` sits among the entries, if anywhere.
    fn position(&self, k: &str) -> (r: Option<usize>)
        ensures
            match r {
                Some(i) => i < self.pairs().len() && self.pairs()[i as int].0 == k@,
                None => forall|i: int| 0 <= i < self.pairs().len() ==> self.pairs()[i].0 != k@,
            },
    {
        let n = self.entries.len();
        let mut i: usize = 0;
        while i < n
            invariant
                n == self.entries@.len(),
                n == self.pairs().len(),
                i <= n,
                forall|j: int| 0 <= j < i ==> self.pairs()[j].0 != k@,
            decreases n - i,
        {
            if str_eq(self.entries[i].0.as_str(), k) {
                return Some(i);
            }
            i = i + 1;
        }
        None
    }

    /// The value stored under `k`.
    pub fn get(&self, k: &str) -> (r: Option<String>)
        ensures
            match r {
                Some(v) => self@.dom().contains(k@) && self@[k@] == v@,
                None => !self@.dom().contains(k@),
            },
    {
        proof { use_type_invariant(self); }
        match self.position(k) {
            Some(i) => {
                proof { lemma_pairs_map_at(self.pairs(), i as int); }
                Some(self.entries[i].1.clone())
            },
            None => {
                proof { lemma_pairs_map_absent(self.pairs(), k@); }
                None
            },
        }
    }

    /// Stores `v` under `k`, replacing any earlier value.
    pub fn insert(&mut self, k: &str, v: &str)
        ensures
            final(self)@ == old(self)@.insert(k@, v@),
    {
        proof { use_type_invariant(&*self); }
        let ghost p0 = self.pairs();
        match self.position(k) {
            Some(i) => {
                let key = self.entries[i].0.clone();
                let mut entries: Vec<(String, String)> = Vec::new();
                std::mem::swap(&mut entries, &mut self.entries);
                entries.set(i, (key, v.to_owned()));
                proof {
                    let p1 = entries@.map_values(|e: (String, String)| (e.0@, e.1@));
                    assert(p1 =~= p0.update(i as int, (p0[i as int].0, v@)));
                    lemma_pairs_map_update(p0, i as int, v@);
                }
                self.entries = entries;
            },
            None => {
                let mut entries: Vec<(String, String)> = Vec::new();
                std::mem::swap(&mut entries, &mut self.entries);
                entries.push((k.to_owned(), v.to_owned()));
                proof {
                    let p1 = entries@.map_values(|e: (String, String)| (e.0@, e.1@));
                    assert(p1 =~= p0.push((k@, v@)));
                    assert(p1.drop_last() =~= p0);
                }
                self.entries = entries;
            },
        }
    }
}

impl StrTable {
    /// Stores each pair in order, later pairs replacing earlier values.
    pub fn insert_all(&mut self, pairs: &Vec<(String, String)>)
        ensures
            final(self)@ == insert_all(old(self)@, pairs@.map_values(|p: (String, String)| (p.0@, p.1@))),
    {
        let ghost m0 = self@;
        let ghost ps = pairs@.map_values(|p: (String, String)| (p.0@, p.1@));
        for i in 0..pairs.len()
            invariant
                ps == pairs@.map_values(|p: (String, String)| (p.0@, p.1@)),
                self@ == insert_all(m0, ps.take(i as int)),
        {
            self.insert(pairs[i].0.as_str(), pairs[i].1.as_str());
            assert(ps.take(i + 1).drop_last() =~= ps.take(i as int));
        }
        assert(ps.take(pairs.len() as int) =~= ps);
    }
}

} // verus!
