//! The environment variables that a request carries: a map from names to
//! values in which each name occurs once.

use vstd::prelude::*;
use vstd::string::*;
use crate::text::same_text;

verus! {

/// The characters of a name and of its value.
pub open spec fn pair_view(p: (String, String)) -> (Seq<char>, Seq<char>) {
    (p.0@, p.1@)
}

/// The map that a list of pairs describes, a later pair overriding an earlier one.
pub open spec fn map_of(s: Seq<(Seq<char>, Seq<char>)>) -> Map<Seq<char>, Seq<char>>
    decreases s.len(),
{
    if s.len() == 0 {
        Map::empty()
    } else {
        map_of(s.drop_last()).insert(s.last().0, s.last().1)
    }
}

/// The names of a list of pairs, in order.
pub open spec fn names_of(s: Seq<(Seq<char>, Seq<char>)>) -> Seq<Seq<char>> {
    s.map_values(|p: (Seq<char>, Seq<char>)| p.0)
}

/// Environment variables: each name occurs once.
#[derive(Debug)]
pub struct EnvironmentMap {
    entries: Vec<(String, String)>,
}

impl EnvironmentMap {
    /// The pairs in the order in which their names were first inserted.
    pub closed spec fn pairs(self) -> Seq<(Seq<char>, Seq<char>)> {
        self.entries@.map_values(|p: (String, String)| pair_view(p))
    }

    #[verifier::type_invariant]
    spec fn names_unique(self) -> bool {
        names_of(self.pairs()).no_duplicates()
    }
}

impl Clone for EnvironmentMap {
    fn clone(&self) -> (c: Self)
        ensures
            c@ == self@,
    {
        proof {
            use_type_invariant(self);
        }
        let mut entries: Vec<(String, String)> = Vec::new();
        let mut i: usize = 0;
        while i < self.entries.len()
            invariant
                i <= self.entries@.len(),
                entries@.len() == i,
                forall|j: int| 0 <= j < i ==> pair_view(#[trigger] entries@[j]) == pair_view(self.entries@[j]),
            decreases self.entries@.len() - i,
        {
            let name = self.entries[i].0.clone();
            let value = self.entries[i].1.clone();
            entries.push((name, value));
            i = i + 1;
        }
        proof {
            let p = entries@.map_values(|p: (String, String)| pair_view(p));
            assert(p =~= self.pairs());
        }
        EnvironmentMap { entries }
    }
}

impl View for EnvironmentMap {
    type V = Map<Seq<char>, Seq<char>>;

    closed spec fn view(&self) -> Map<Seq<char>, Seq<char>> {
        map_of(self.pairs())
    }
}

/// What the map of a list of pairs with distinct names holds.
proof fn lemma_map_of_distinct(s: Seq<(Seq<char>, Seq<char>)>)
    requires
        names_of(s).no_duplicates(),
    ensures
        map_of(s).dom().finite(),
        map_of(s).dom().len() == s.len(),
        forall|k: Seq<char>| #[trigger] map_of(s).contains_key(k) <==> names_of(s).contains(k),
        forall|i: int| 0 <= i < s.len() ==> #[trigger] map_of(s)[s[i].0] == s[i].1,
    decreases s.len(),
{
    if s.len() > 0 {
        let d = s.drop_last();
        assert(names_of(d) =~= names_of(s).drop_last());
        lemma_map_of_distinct(d);
        assert(names_of(s) =~= names_of(d).push(s.last().0));
        assert forall|k: Seq<char>| #[trigger] map_of(s).contains_key(k) <==> names_of(s).contains(k) by {
            if names_of(s).contains(k) {
                let j = choose|j: int| 0 <= j < names_of(s).len() && names_of(s)[j] == k;
                if j < d.len() {
                    assert(names_of(d)[j] == k);
                    assert(names_of(d).contains(k));
                } else {
                    assert(k == s.last().0);
                }
            }
            if map_of(s).contains_key(k) && k != s.last().0 {
                assert(map_of(d).contains_key(k));
                assert(names_of(d).contains(k));
                let j = choose|j: int| 0 <= j < names_of(d).len() && names_of(d)[j] == k;
                assert(names_of(s)[j] == k);
            }
            if k == s.last().0 {
                assert(names_of(s)[s.len() - 1] == k);
            }
        }
        assert(!map_of(d).contains_key(s.last().0)) by {
            if map_of(d).contains_key(s.last().0) {
                let j = choose|j: int| 0 <= j < names_of(d).len() && names_of(d)[j] == s.last().0;
                assert(names_of(s)[j] == names_of(s)[s.len() - 1]);
            }
        }
        assert forall|i: int| 0 <= i < s.len() implies #[trigger] map_of(s)[s[i].0] == s[i].1 by {
            if i < s.len() - 1 {
                assert(d[i] == s[i]);
                assert(names_of(s)[i] != names_of(s)[s.len() - 1]);
            }
        }
    }
}

/// Replacing the value of the pair at `i` replaces the value of its name in the map.
proof fn lemma_map_of_update(s: Seq<(Seq<char>, Seq<char>)>, i: int, v: Seq<char>)
    requires
        names_of(s).no_duplicates(),
        0 <= i < s.len(),
    ensures
        map_of(s.update(i, (s[i].0, v))) == map_of(s).insert(s[i].0, v),
    decreases s.len(),
{
    let t = s.update(i, (s[i].0, v));
    let d = s.drop_last();
    if i == s.len() - 1 {
        assert(t.drop_last() =~= d);
        assert(map_of(t) =~= map_of(s).insert(s[i].0, v));
    } else {
        assert(t.drop_last() =~= d.update(i, (d[i].0, v)));
        assert(names_of(d) =~= names_of(s).drop_last());
        lemma_map_of_update(d, i, v);
        assert(names_of(s)[i] != names_of(s)[s.len() - 1]);
        assert(map_of(t) =~= map_of(s).insert(s[i].0, v));
    }
}

impl EnvironmentMap {
    /// An empty map.
    pub fn new() -> (m: Self)
        ensures
            m@ == Map::<Seq<char>, Seq<char>>::empty(),
    {
        let m = EnvironmentMap { entries: Vec::new() };
        assert(m.pairs() =~= Seq::<(Seq<char>, Seq<char>)>::empty());
        m
    }

    /// The number of names in the map.
    pub fn len(&self) -> (n: usize)
        ensures
            n == self@.len(),
    {
        proof {
            use_type_invariant(self);
            lemma_map_of_distinct(self.pairs());
        }
        self.entries.len()
    }

    /// Whether the map holds no name.
    pub fn is_empty(&self) -> (b: bool)
        ensures
            b == (self@.len() == 0),
    {
        self.len() == 0
    }

    fn position(&self, name: &str) -> (r: Option<usize>)
        ensures
            match r {
                Some(i) => i < self.pairs().len() && self.pairs()[i as int].0 == name@,
                None => !names_of(self.pairs()).contains(name@),
            },
    {
        let mut i: usize = 0;
        while i < self.entries.len()
            invariant
                i <= self.entries@.len(),
                forall|j: int| 0 <= j < i ==> #[trigger] self.pairs()[j].0 != name@,
            decreases self.entries@.len() - i,
        {
            if same_text(self.entries[i].0.as_str(), name) {
                return Some(i);
            }
            i = i + 1;
        }
        proof {
            if names_of(self.pairs()).contains(name@) {
                let j = choose|j: int| 0 <= j < names_of(self.pairs()).len() && names_of(self.pairs())[j] == name@;
                assert(self.pairs()[j].0 == name@);
            }
        }
        None
    }

    /// The value of `name`, if the map holds it.
    pub fn get(&self, name: &str) -> (r: Option<&String>)
        ensures
            match r {
                Some(v) => self@.contains_key(name@) && v@ == self@[name@],
                None => !self@.contains_key(name@),
            },
    {
        proof {
            use_type_invariant(self);
            lemma_map_of_distinct(self.pairs());
        }
        match self.position(name) {
            Some(i) => {
                assert(names_of(self.pairs())[i as int] == name@);
                Some(&self.entries[i].1)
            },
            None => None,
        }
    }

    /// Sets `name` to `value`; returns the value that `name` had before.
    pub fn insert(&mut self, name: String, value: String) -> (previous: Option<String>)
        ensures
            final(self)@ == old(self)@.insert(name@, value@),
            match previous {
                Some(v) => old(self)@.contains_key(name@) && v@ == old(self)@[name@],
                None => !old(self)@.contains_key(name@),
            },
    {
        proof {
            use_type_invariant(&*self);
            lemma_map_of_distinct(self.pairs());
        }
        let ghost old_pairs = self.pairs();
        match self.position(name.as_str()) {
            Some(i) => {
                let mut slot = (name, value);
                let mut entries: Vec<(String, String)> = Vec::new();
                std::mem::swap(&mut entries, &mut self.entries);
                entries.set_and_swap(i, &mut slot);
                proof {
                    let new_pairs = entries@.map_values(|p: (String, String)| pair_view(p));
                    assert(names_of(new_pairs) =~= names_of(old_pairs));
                }
                self.entries = entries;
                proof {
                    assert(self.pairs() =~= old_pairs.update(i as int, (old_pairs[i as int].0, value@)));
                    lemma_map_of_update(old_pairs, i as int, value@);
                    assert(names_of(self.pairs()) =~= names_of(old_pairs));
                    assert(names_of(old_pairs)[i as int] == name@);
                }
                Some(slot.1)
            },
            None => {
                let mut entries: Vec<(String, String)> = Vec::new();
                std::mem::swap(&mut entries, &mut self.entries);
                entries.push((name, value));
                proof {
                    let new_pairs = entries@.map_values(|p: (String, String)| pair_view(p));
                    assert(new_pairs.drop_last() =~= old_pairs);
                    assert(names_of(new_pairs) =~= names_of(old_pairs).push(name@));
                    assert forall|a: int, b: int| 0 <= a < names_of(new_pairs).len() && 0 <= b < names_of(new_pairs).len() && a != b
                        implies names_of(new_pairs)[a] != names_of(new_pairs)[b] by {
                        if a == old_pairs.len() {
                            assert(names_of(old_pairs)[b] == names_of(new_pairs)[b]);
                        } else if b == old_pairs.len() {
                            assert(names_of(old_pairs)[a] == names_of(new_pairs)[a]);
                        }
                    }
                }
                self.entries = entries;
                proof {
                    assert(self.pairs().drop_last() =~= old_pairs);
                    assert(names_of(self.pairs()) =~= names_of(old_pairs).push(name@));
                    assert forall|a: int, b: int| 0 <= a < names_of(self.pairs()).len() && 0 <= b < names_of(self.pairs()).len() && a != b
                        implies names_of(self.pairs())[a] != names_of(self.pairs())[b] by {
                        if a == old_pairs.len() {
                            assert(names_of(old_pairs)[b] == names_of(self.pairs())[b]);
                        } else if b == old_pairs.len() {
                            assert(names_of(old_pairs)[a] == names_of(self.pairs())[a]);
                        }
                    }
                }
                None
            },
        }
    }

    /// The pairs of the map, each name once.
    pub fn pairs_slice(&self) -> (r: &[(String, String)])
        ensures
            r@.len() == self@.len(),
            forall|i: int| 0 <= i < r@.len() ==>
                self@.contains_key(#[trigger] r@[i].0@) && self@[r@[i].0@] == r@[i].1@,
    {
        proof {
            use_type_invariant(self);
            lemma_map_of_distinct(self.pairs());
            assert forall|i: int| 0 <= i < self.entries@.len() implies
                self@.contains_key(#[trigger] self.entries@[i].0@) && self@[self.entries@[i].0@] == self.entries@[i].1@ by {
                assert(self.pairs()[i].0 == self.entries@[i].0@);
                assert(names_of(self.pairs())[i] == self.entries@[i].0@);
            }
        }
        self.entries.as_slice()
    }
}

} // verus!
