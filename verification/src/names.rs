//! A small map from names to values that keeps the order of first insertion.

use vstd::prelude::*;

verus! {

/// The map that a list of name and value pairs stands for: a later pair
/// overrides an earlier one of the same name.
pub open spec fn pairs_to_map<V>(pairs: Seq<(Seq<char>, V)>) -> Map<Seq<char>, V>
    decreases pairs.len(),
{
    if pairs.len() == 0 {
        Map::empty()
    } else {
        pairs_to_map(pairs.drop_last()).insert(pairs.last().0, pairs.last().1)
    }
}

/// No name occurs twice in the list.
pub open spec fn distinct_names<V>(pairs: Seq<(Seq<char>, V)>) -> bool {
    forall|i: int, j: int| 0 <= i < j < pairs.len() ==> pairs[i].0 != pairs[j].0
}

/// A name is in the map of a list exactly if some pair carries it.
pub proof fn lemma_map_has_name<V>(pairs: Seq<(Seq<char>, V)>, name: Seq<char>)
    ensures
        pairs_to_map(pairs).contains_key(name) <==> exists|i: int|
            0 <= i < pairs.len() && #[trigger] pairs[i].0 == name,
    decreases pairs.len(),
{
    if pairs.len() > 0 {
        let front = pairs.drop_last();
        lemma_map_has_name(front, name);
        if pairs_to_map(pairs).contains_key(name) {
            if pairs.last().0 == name {
                assert(pairs[pairs.len() - 1].0 == name);
            } else {
                let i = choose|i: int| 0 <= i < front.len() && #[trigger] front[i].0 == name;
                assert(pairs[i].0 == name);
            }
        }
        if exists|i: int| 0 <= i < pairs.len() && #[trigger] pairs[i].0 == name {
            let i = choose|i: int| 0 <= i < pairs.len() && #[trigger] pairs[i].0 == name;
            if i < pairs.len() - 1 {
                assert(front[i].0 == name);
            }
        }
    }
}

/// In a list without repeated names, the map gives each pair's own value.
pub proof fn lemma_map_value<V>(pairs: Seq<(Seq<char>, V)>, i: int)
    requires
        distinct_names(pairs),
        0 <= i < pairs.len(),
    ensures
        pairs_to_map(pairs).contains_key(pairs[i].0),
        pairs_to_map(pairs)[pairs[i].0] == pairs[i].1,
    decreases pairs.len(),
{
    let front = pairs.drop_last();
    if i < pairs.len() - 1 {
        assert(front[i] == pairs[i]);
        lemma_map_value(front, i);
    }
}

/// Replacing the value of one pair inserts that value under the pair's name.
pub proof fn lemma_map_update<V>(pairs: Seq<(Seq<char>, V)>, i: int, value: V)
    requires
        distinct_names(pairs),
        0 <= i < pairs.len(),
    ensures
        pairs_to_map(pairs.update(i, (pairs[i].0, value))) == pairs_to_map(pairs).insert(
            pairs[i].0,
            value,
        ),
    decreases pairs.len(),
{
    let name = pairs[i].0;
    let after = pairs.update(i, (name, value));
    let front = pairs.drop_last();
    if i == pairs.len() - 1 {
        assert(after.drop_last() =~= front);
        assert(pairs_to_map(after) =~= pairs_to_map(pairs).insert(name, value));
    } else {
        assert(front[i] == pairs[i]);
        lemma_map_update(front, i, value);
        assert(after.drop_last() =~= front.update(i, (name, value)));
        assert(pairs.last().0 != name);
        assert(pairs_to_map(after) =~= pairs_to_map(pairs).insert(name, value));
    }
}

/// The pairs that stored entries stand for, names as character sequences.
pub open spec fn pairs_of<V>(entries: Seq<(String, V)>) -> Seq<(Seq<char>, V)> {
    entries.map_values(|e: (String, V)| (e.0@, e.1))
}

/// A map from names to values, held as a list in which no name occurs twice.
#[derive(Debug)]
pub struct NameMap<V: Copy> {
    entries: Vec<(String, V)>,
}

impl<V: Copy> View for NameMap<V> {
    type V = Map<Seq<char>, V>;

    /// The map from each name to its value.
    open spec fn view(&self) -> Map<Seq<char>, V> {
        pairs_to_map(self.pairs())
    }
}

impl<V: Copy> NameMap<V> {
    #[verifier::type_invariant]
    closed spec fn well_formed(&self) -> bool {
        distinct_names(self.pairs())
    }

    /// The entries in order of first insertion, names as character sequences.
    pub closed spec fn pairs(&self) -> Seq<(Seq<char>, V)> {
        pairs_of(self.entries@)
    }

    /// An empty map.
    pub fn new() -> (res: Self)
        ensures
            res.pairs() == Seq::<(Seq<char>, V)>::empty(),
            res@ == Map::<Seq<char>, V>::empty(),
    {
        let res = NameMap { entries: Vec::new() };
        assert(res.pairs() =~= Seq::<(Seq<char>, V)>::empty());
        res
    }

    /// The number of names. No name is counted twice: the entries carry
    /// distinct names.
    pub fn len(&self) -> (n: usize)
        ensures
            n == self.pairs().len(),
            distinct_names(self.pairs()),
    {
        proof {
            use_type_invariant(self);
        }
        self.entries.len()
    }

    /// The name of the entry at `index`, counted in order of first insertion.
    pub fn name_at(&self, index: usize) -> (name: &String)
        requires
            index < self.pairs().len(),
        ensures
            name@ == self.pairs()[index as int].0,
    {
        &self.entries[index].0
    }

    /// The value of the entry at `index`, counted in order of first insertion.
    pub fn value_at(&self, index: usize) -> (value: V)
        requires
            index < self.pairs().len(),
        ensures
            value == self.pairs()[index as int].1,
    {
        self.entries[index].1
    }

    /// Where `name` stands in the list, if it does.
    fn position(&self, name: &String) -> (res: Option<usize>)
        ensures
            match res {
                Some(i) => i < self.pairs().len() && self.pairs()[i as int].0 == name@,
                None => forall|i: int| 0 <= i < self.pairs().len() ==> self.pairs()[i].0 != name@,
            },
    {
        let mut i: usize = 0;
        while i < self.entries.len()
            invariant
                i <= self.entries.len(),
                forall|k: int| 0 <= k < i ==> self.pairs()[k].0 != name@,
            decreases self.entries.len() - i,
        {
            if self.entries[i].0 == *name {
                return Some(i);
            }
            i += 1;
        }
        None
    }

    /// The value stored under `name`, if there is one.
    pub fn get(&self, name: &String) -> (res: Option<V>)
        ensures
            res == if self@.contains_key(name@) {
                Some(self@[name@])
            } else {
                None
            },
    {
        proof {
            use_type_invariant(self);
            lemma_map_has_name(self.pairs(), name@);
        }
        match self.position(name) {
            Some(i) => {
                proof {
                    lemma_map_value(self.pairs(), i as int);
                }
                Some(self.entries[i].1)
            },
            None => None,
        }
    }

    /// The map with `value` stored under `name`. A name already present
    /// keeps its place in the order; a new name goes to the end.
    pub fn with(self, name: String, value: V) -> (res: Self)
        ensures
            res@ == self@.insert(name@, value),
            self@.contains_key(name@) ==> exists|i: int|
                0 <= i < self.pairs().len() && #[trigger] self.pairs()[i].0 == name@ && res.pairs()
                    == self.pairs().update(i, (name@, value)),
            !self@.contains_key(name@) ==> res.pairs() == self.pairs().push((name@, value)),
    {
        proof {
            use_type_invariant(&self);
            lemma_map_has_name(self.pairs(), name@);
        }
        let ghost before = self.pairs();
        let found = self.position(&name);
        let mut entries = self.entries;
        match found {
            Some(i) => {
                proof {
                    lemma_map_update(before, i as int, value);
                }
                entries.set(i, (name, value));
            },
            None => {
                entries.push((name, value));
            },
        }
        proof {
            match found {
                Some(i) => {
                    assert(pairs_of(entries@) =~= before.update(i as int, (name@, value)));
                },
                None => {
                    assert(pairs_of(entries@) =~= before.push((name@, value)));
                    assert(pairs_of(entries@).drop_last() =~= before);
                },
            }
        }
        NameMap { entries }
    }
}

impl<V: Copy> Clone for NameMap<V> {
    /// A copy with the same entries in the same order.
    fn clone(&self) -> (res: Self)
        ensures
            res.pairs() == self.pairs(),
            res@ == self@,
    {
        proof {
            use_type_invariant(self);
        }
        let mut entries: Vec<(String, V)> = Vec::new();
        let mut i: usize = 0;
        while i < self.entries.len()
            invariant
                i <= self.entries.len(),
                entries@.len() == i,
                forall|k: int|
                    0 <= k < i ==> entries@[k].0@ == self.entries@[k].0@ && entries@[k].1
                        == self.entries@[k].1,
            decreases self.entries.len() - i,
        {
            entries.push((self.entries[i].0.clone(), self.entries[i].1));
            i += 1;
        }
        assert(pairs_of(entries@) =~= self.pairs());
        NameMap { entries }
    }
}

} // verus!
