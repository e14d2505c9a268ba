//! The footers of a commit message: a mapping from key to value in which a
//! later value for a key replaces the earlier one.

use vstd::prelude::*;

verus! {

/// The mapping that a sequence of key/value insertions builds, later
/// insertions of a key replacing earlier ones.
pub open spec fn map_of(pairs: Seq<(Seq<char>, Seq<char>)>) -> Map<Seq<char>, Seq<char>>
    decreases pairs.len(),
{
    if pairs.len() == 0 {
        Map::empty()
    } else {
        map_of(pairs.drop_last()).insert(pairs.last().0, pairs.last().1)
    }
}

/// Whether no entry after index `i` has the key of entry `i`.
pub open spec fn last_with_key(pairs: Seq<(Seq<char>, Seq<char>)>, i: int) -> bool {
    forall|j: int| i < j < pairs.len() ==> #[trigger] pairs[j].0 != pairs[i].0
}

proof fn lemma_map_of_domain(pairs: Seq<(Seq<char>, Seq<char>)>, k: Seq<char>)
    ensures
        map_of(pairs).contains_key(k) <==> exists|i: int|
            0 <= i < pairs.len() && #[trigger] pairs[i].0 == k,
    decreases pairs.len(),
{
    if pairs.len() > 0 {
        let rest = pairs.drop_last();
        lemma_map_of_domain(rest, k);
        if map_of(rest).contains_key(k) {
            let i = choose|i: int| 0 <= i < rest.len() && #[trigger] rest[i].0 == k;
            assert(pairs[i].0 == k);
        }
        if exists|i: int| 0 <= i < pairs.len() && #[trigger] pairs[i].0 == k {
            let i = choose|i: int| 0 <= i < pairs.len() && #[trigger] pairs[i].0 == k;
            if i < rest.len() {
                assert(rest[i].0 == k);
            }
        }
    }
}

proof fn lemma_map_of_value(pairs: Seq<(Seq<char>, Seq<char>)>, i: int)
    requires
        0 <= i < pairs.len(),
        last_with_key(pairs, i),
    ensures
        map_of(pairs).contains_key(pairs[i].0),
        map_of(pairs)[pairs[i].0] == pairs[i].1,
    decreases pairs.len(),
{
    let rest = pairs.drop_last();
    if i < pairs.len() - 1 {
        assert(pairs[pairs.len() - 1].0 != pairs[i].0);
        assert(rest[i] == pairs[i]);
        assert(last_with_key(rest, i)) by {
            assert forall|j: int| i < j < rest.len() implies #[trigger] rest[j].0 != rest[i].0 by {
                assert(rest[j] == pairs[j]);
            }
        }
        lemma_map_of_value(rest, i);
    }
}

proof fn lemma_map_of_update(pairs: Seq<(Seq<char>, Seq<char>)>, i: int, v: Seq<char>)
    requires
        0 <= i < pairs.len(),
        last_with_key(pairs, i),
    ensures
        map_of(pairs.update(i, (pairs[i].0, v))) == map_of(pairs).insert(pairs[i].0, v),
    decreases pairs.len(),
{
    let k = pairs[i].0;
    let updated = pairs.update(i, (k, v));
    let rest = pairs.drop_last();
    if i == pairs.len() - 1 {
        assert(updated.drop_last() == rest);
        assert(map_of(updated) =~= map_of(pairs).insert(k, v));
    } else {
        assert(rest[i] == pairs[i]);
        assert(last_with_key(rest, i)) by {
            assert forall|j: int| i < j < rest.len() implies #[trigger] rest[j].0 != rest[i].0 by {
                assert(rest[j] == pairs[j]);
            }
        }
        assert(updated.drop_last() == rest.update(i, (k, v)));
        lemma_map_of_update(rest, i, v);
        assert(pairs[pairs.len() - 1].0 != k);
        assert(map_of(updated) =~= map_of(pairs).insert(k, v));
    }
}

/// Footer entries in the order their keys first appeared. `insert` replaces
/// the value of a key it already holds, so no key occurs twice; lookups read
/// the last entry of a key, which the mapping `view` describes either way.
#[derive(Clone, Debug)]
pub struct Footers {
    entries: Vec<(String, String)>,
}

impl Footers {
    /// The entries, each as a pair of character sequences.
    pub closed spec fn pairs(self) -> Seq<(Seq<char>, Seq<char>)> {
        self.entries@.map_values(|p: (String, String)| (p.0@, p.1@))
    }

    /// No footers.
    pub fn new() -> (r: Footers)
        ensures
            r@ == Map::<Seq<char>, Seq<char>>::empty(),
    {
        let r = Footers { entries: Vec::new() };
        assert(r.pairs() =~= Seq::empty());
        r
    }

    /// The index of the last entry whose key is `key`.
    fn find(&self, key: &String) -> (r: Option<usize>)
        ensures
            match r {
                Some(i) => i < self.pairs().len() && self.pairs()[i as int].0 == key@
                    && last_with_key(self.pairs(), i as int),
                None => forall|j: int| 0 <= j < self.pairs().len()
                    ==> #[trigger] self.pairs()[j].0 != key@,
            },
    {
        let mut i: usize = self.entries.len();
        while i > 0
            invariant
                i <= self.entries@.len(),
                forall|j: int| i <= j < self.pairs().len() ==> #[trigger] self.pairs()[j].0 != key@,
            decreases i,
        {
            if self.entries[i - 1].0 == *key {
                return Some(i - 1);
            }
            i -= 1;
        }
        None
    }

    /// Sets the value of `key`, replacing an earlier one.
    pub fn insert(&mut self, key: String, value: String)
        ensures
            final(self)@ == old(self)@.insert(key@, value@),
    {
        let ghost before = self.pairs();
        match self.find(&key) {
            Some(i) => {
                self.entries.set(i, (key, value));
                proof {
                    assert(self.pairs() =~= before.update(i as int, (before[i as int].0, value@)));
                    lemma_map_of_update(before, i as int, value@);
                }
            },
            None => {
                self.entries.push((key, value));
                proof {
                    assert(self.pairs() =~= before.push((key@, value@)));
                    assert(self.pairs().drop_last() =~= before);
                }
            },
        }
    }

    /// The value of `key`, if it has one.
    pub fn get(&self, key: &str) -> (r: Option<&String>)
        ensures
            r is Some <==> self@.contains_key(key@),
            r is Some ==> r->0@ == self@[key@],
    {
        let wanted = key.to_owned();
        match self.find(&wanted) {
            Some(i) => {
                proof {
                    lemma_map_of_value(self.pairs(), i as int);
                }
                Some(&self.entries[i].1)
            },
            None => {
                proof {
                    lemma_map_of_domain(self.pairs(), key@);
                }
                None
            },
        }
    }
}

impl View for Footers {
    type V = Map<Seq<char>, Seq<char>>;

    closed spec fn view(&self) -> Map<Seq<char>, Seq<char>> {
        map_of(self.pairs())
    }
}

} // verus!
