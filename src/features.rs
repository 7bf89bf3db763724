//! The `features` section: named boolean flags, each name held once.

use vstd::prelude::*;

use crate::text::{lower_of, lowercase, text_eq};

verus! {

/// The map that a list of (name, value) pairs describes; a later pair for a
/// name replaces an earlier one.
pub open spec fn pairs_map(s: Seq<(String, bool)>) -> Map<Seq<char>, bool>
    decreases s.len(),
{
    if s.len() == 0 {
        Map::empty()
    } else {
        pairs_map(s.drop_last()).insert(s.last().0@, s.last().1)
    }
}

/// The map that a list of (name, value) pairs describes once every name is
/// lowercased; where two names lowercase alike, the later pair counts.
pub open spec fn lowered_pairs_map(s: Seq<(String, bool)>) -> Map<Seq<char>, bool>
    decreases s.len(),
{
    if s.len() == 0 {
        Map::empty()
    } else {
        lowered_pairs_map(s.drop_last()).insert(lower_of(s.last().0@), s.last().1)
    }
}

/// No name occurs twice among the pairs.
pub open spec fn names_unique(s: Seq<(String, bool)>) -> bool {
    forall|i: int, j: int| 0 <= i < j < s.len() ==> s[i].0@ != s[j].0@
}

/// A name is in the map exactly when some pair carries it.
pub proof fn lemma_pairs_map_dom(s: Seq<(String, bool)>, k: Seq<char>)
    ensures
        pairs_map(s).contains_key(k) <==> exists|i: int| 0 <= i < s.len() && s[i].0@ == k,
    decreases s.len(),
{
    if s.len() > 0 {
        lemma_pairs_map_dom(s.drop_last(), k);
        if pairs_map(s.drop_last()).contains_key(k) {
            let i = choose|i: int| 0 <= i < s.drop_last().len() && s.drop_last()[i].0@ == k;
            assert(s[i].0@ == k);
        }
        if exists|i: int| 0 <= i < s.len() && s[i].0@ == k {
            let i = choose|i: int| 0 <= i < s.len() && s[i].0@ == k;
            if i < s.len() - 1 {
                assert(s.drop_last()[i].0@ == k);
            }
        }
    }
}

/// With unique names, each pair gives the value that the map holds for its name.
pub proof fn lemma_pairs_map_at(s: Seq<(String, bool)>, i: int)
    requires
        names_unique(s),
        0 <= i < s.len(),
    ensures
        pairs_map(s).contains_key(s[i].0@),
        pairs_map(s)[s[i].0@] == s[i].1,
    decreases s.len(),
{
    if i < s.len() - 1 {
        assert(names_unique(s.drop_last()));
        lemma_pairs_map_at(s.drop_last(), i);
        assert(s.last().0@ != s[i].0@);
    }
}

/// Replacing the value of a pair with unique names updates the map at that name.
pub proof fn lemma_pairs_map_update(s: Seq<(String, bool)>, i: int, p: (String, bool))
    requires
        names_unique(s),
        0 <= i < s.len(),
        p.0@ == s[i].0@,
    ensures
        pairs_map(s.update(i, p)) == pairs_map(s).insert(p.0@, p.1),
    decreases s.len(),
{
    let t = s.update(i, p);
    if i == s.len() - 1 {
        assert(t.drop_last() =~= s.drop_last());
        assert(pairs_map(t) =~= pairs_map(s).insert(p.0@, p.1));
    } else {
        assert(names_unique(s.drop_last()));
        lemma_pairs_map_update(s.drop_last(), i, p);
        assert(t.drop_last() =~= s.drop_last().update(i, p));
        assert(s.last().0@ != p.0@);
        assert(pairs_map(t) =~= pairs_map(s).insert(p.0@, p.1));
    }
}

/// Named boolean feature flags; each name occurs once.
#[derive(Debug)]
pub struct FeatureMap {
    entries: Vec<(String, bool)>,
}

impl FeatureMap {
    #[verifier::type_invariant]
    spec fn inv(&self) -> bool {
        names_unique(self.entries@)
    }
}

impl Clone for FeatureMap {
    fn clone(&self) -> (r: Self)
        ensures
            r@ == self@,
    {
        proof {
            use_type_invariant(self);
        }
        let n = self.entries.len();
        let mut entries: Vec<(String, bool)> = Vec::new();
        let mut i: usize = 0;
        while i < n
            invariant
                n == self.entries@.len(),
                i <= n,
                entries@.len() == i,
                forall|j: int| 0 <= j < i ==> entries@[j] == self.entries@[j],
            decreases n - i,
        {
            entries.push((self.entries[i].0.clone(), self.entries[i].1));
            i = i + 1;
        }
        assert(entries@ =~= self.entries@);
        FeatureMap { entries }
    }
}

impl FeatureMap {
    /// The flags in the order the map holds them.
    pub closed spec fn pairs(&self) -> Seq<(String, bool)> {
        self.entries@
    }
}

impl View for FeatureMap {
    type V = Map<Seq<char>, bool>;

    closed spec fn view(&self) -> Map<Seq<char>, bool> {
        pairs_map(self.entries@)
    }
}

impl FeatureMap {
    /// A map with no flags.
    pub fn new() -> (r: Self)
        ensures
            r@ == Map::<Seq<char>, bool>::empty(),
    {
        FeatureMap { entries: Vec::new() }
    }

    /// Where `name` is held in `entries`, if it is.
    fn position(&self, name: &str) -> (r: Option<usize>)
        ensures
            match r {
                Some(i) => i < self.entries@.len() && self.entries@[i as int].0@ == name@,
                None => !self@.contains_key(name@),
            },
    {
        let n = self.entries.len();
        let mut i: usize = 0;
        while i < n
            invariant
                n == self.entries@.len(),
                i <= n,
                forall|j: int| 0 <= j < i ==> self.entries@[j].0@ != name@,
            decreases n - i,
        {
            if text_eq(self.entries[i].0.as_str(), name) {
                return Some(i);
            }
            i = i + 1;
        }
        proof {
            lemma_pairs_map_dom(self.entries@, name@);
        }
        None
    }

    /// The value of flag `name`, if the map holds it.
    pub fn get(&self, name: &str) -> (r: Option<bool>)
        ensures
            r == (if self@.contains_key(name@) {
                Some(self@[name@])
            } else {
                None
            }),
    {
        proof {
            use_type_invariant(self);
        }
        match self.position(name) {
            Some(i) => {
                proof {
                    lemma_pairs_map_at(self.entries@, i as int);
                }
                Some(self.entries[i].1)
            },
            None => None,
        }
    }

    /// Sets flag `name` to `value`, replacing any value it had.
    pub fn insert(&mut self, name: String, value: bool)
        ensures
            final(self)@ == old(self)@.insert(name@, value),
    {
        let mut taken = FeatureMap::new();
        core::mem::swap(self, &mut taken);
        proof {
            use_type_invariant(&taken);
        }
        let found = taken.position(name.as_str());
        let FeatureMap { mut entries } = taken;
        match found {
            Some(i) => {
                proof {
                    lemma_pairs_map_update(entries@, i as int, (name, value));
                }
                entries.set(i, (name, value));
            },
            None => {
                proof {
                    lemma_pairs_map_dom(entries@, name@);
                }
                let ghost before = entries@;
                entries.push((name, value));
                assert(entries@.drop_last() =~= before);
            },
        }
        *self = FeatureMap { entries };
    }

    /// The same flags with every name lowercased.
    pub fn with_lowercase_names(&self) -> (r: FeatureMap)
        ensures
            r@ == lowered_pairs_map(self.pairs()),
    {
        let pairs = &self.entries;
        let n = pairs.len();
        let mut lowered = FeatureMap::new();
        let mut i: usize = 0;
        while i < n
            invariant
                n == pairs@.len(),
                pairs@ == self.pairs(),
                i <= n,
                lowered@ == lowered_pairs_map(pairs@.take(i as int)),
            decreases n - i,
        {
            assert(pairs@.take(i + 1).drop_last() =~= pairs@.take(i as int));
            lowered.insert(lowercase(pairs[i].0.as_str()), pairs[i].1);
            i = i + 1;
        }
        assert(pairs@.take(n as int) =~= pairs@);
        lowered
    }

    /// The flags as (name, value) pairs, each name once, in no particular order.
    pub fn entries(&self) -> (r: &Vec<(String, bool)>)
        ensures
            r@ == self.pairs(),
            pairs_map(r@) == self@,
            names_unique(r@),
    {
        proof {
            use_type_invariant(self);
        }
        &self.entries
    }
}

} // verus!
