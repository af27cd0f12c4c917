//! A set of operation ids kept in increasing id order, the shape in which the
//! approval store and the verifier hold the operations they know of.
use vstd::prelude::*;
use crate::common::OperationId;
use crate::order::{lex_lt, lex_less, strictly_sorted, lemma_sorted_slot, lemma_sorted_insert, lemma_sorted_remove, lemma_sorted_unique};
use crate::text::str_eq;

verus! {

/// The ids of a sequence of operation ids.
pub open spec fn id_views(ids: Seq<OperationId>) -> Seq<Seq<char>> {
    ids.map_values(|id: OperationId| id@)
}

/// Inserting a key into a sequence adds it to the set of its keys.
proof fn lemma_insert_to_set(keys: Seq<Seq<char>>, p: int, k: Seq<char>)
    requires
        0 <= p <= keys.len(),
    ensures
        keys.insert(p, k).to_set() == keys.to_set().insert(k),
{
    assert forall|x: Seq<char>| keys.insert(p, k).to_set().contains(x) <==> keys.to_set().insert(k).contains(x) by {
        if keys.insert(p, k).contains(x) {
            let i = choose|i: int| 0 <= i < keys.len() + 1 && keys.insert(p, k)[i] == x;
            if i < p {
                assert(keys[i] == x);
            } else if i > p {
                assert(keys[i - 1] == x);
            }
        }
        if keys.contains(x) {
            let i = choose|i: int| 0 <= i < keys.len() && keys[i] == x;
            if i < p {
                assert(keys.insert(p, k)[i] == x);
            } else {
                assert(keys.insert(p, k)[i + 1] == x);
            }
        }
        if x == k {
            assert(keys.insert(p, k)[p] == x);
        }
    }
    assert(keys.insert(p, k).to_set() =~= keys.to_set().insert(k));
}

/// Removing the only occurrence of a key drops it from the set of keys.
proof fn lemma_remove_to_set(keys: Seq<Seq<char>>, p: int)
    requires
        strictly_sorted(keys),
        0 <= p < keys.len(),
    ensures
        keys.remove(p).to_set() == keys.to_set().remove(keys[p]),
{
    let k = keys[p];
    assert forall|x: Seq<char>| keys.remove(p).to_set().contains(x) <==> keys.to_set().remove(k).contains(x) by {
        if keys.remove(p).contains(x) {
            let i = choose|i: int| 0 <= i < keys.len() - 1 && keys.remove(p)[i] == x;
            if i < p {
                assert(keys[i] == x);
                if x == k {
                    lemma_sorted_unique(keys, i, p);
                }
            } else {
                assert(keys[i + 1] == x);
                if x == k {
                    lemma_sorted_unique(keys, i + 1, p);
                }
            }
        }
        if keys.contains(x) && x != k {
            let i = choose|i: int| 0 <= i < keys.len() && keys[i] == x;
            if i < p {
                assert(keys.remove(p)[i] == x);
            } else {
                assert(i != p);
                assert(keys.remove(p)[i - 1] == x);
            }
        }
    }
    assert(keys.remove(p).to_set() =~= keys.to_set().remove(k));
}

/// A finite set of operation ids, listed in increasing id order.
#[derive(Debug)]
pub struct OperationSet {
    ids: Vec<OperationId>,
}

impl OperationSet {
    #[verifier::type_invariant]
    spec fn sorted(self) -> bool {
        strictly_sorted(id_views(self.ids@))
    }

    /// The ids in the set, in increasing order.
    pub closed spec fn listing(self) -> Seq<Seq<char>> {
        id_views(self.ids@)
    }

    /// The ids in the set.
    pub open spec fn members(self) -> Set<Seq<char>> {
        self.listing().to_set()
    }

    /// An empty set.
    pub fn new() -> (r: Self)
        ensures
            r.listing() == Seq::<Seq<char>>::empty(),
            r.members() == Set::<Seq<char>>::empty(),
    {
        let r = OperationSet { ids: Vec::new() };
        proof {
            assert(r.listing() =~= Seq::<Seq<char>>::empty());
            assert(r.members() =~= Set::<Seq<char>>::empty());
        }
        r
    }

    /// Position at which an id belongs in the listing.
    fn slot(&self, key: &str) -> (p: usize)
        ensures
            p <= self.listing().len(),
            forall|j: int| 0 <= j < p ==> lex_lt(#[trigger] self.listing()[j], key@),
            p == self.listing().len() || !lex_lt(self.listing()[p as int], key@),
    {
        let mut p: usize = 0;
        while p < self.ids.len() && lex_less(self.ids[p].as_str(), key)
            invariant
                p <= self.ids@.len(),
                forall|j: int| 0 <= j < p ==> lex_lt(#[trigger] id_views(self.ids@)[j], key@),
            decreases self.ids@.len() - p,
        {
            p = p + 1;
        }
        p
    }

    /// Whether the id is in the set.
    pub fn contains(&self, id: &OperationId) -> (b: bool)
        ensures
            b == self.members().contains(id@),
    {
        proof {
            use_type_invariant(self);
        }
        let p = self.slot(id.as_str());
        proof {
            lemma_sorted_slot(self.listing(), p as int, id@);
        }
        p < self.ids.len() && str_eq(self.ids[p].as_str(), id.as_str())
    }

    /// Adds the id to the set.
    pub fn insert(&mut self, id: OperationId)
        ensures
            final(self).members() == old(self).members().insert(id@),
    {
        proof {
            use_type_invariant(&*self);
        }
        let ghost keys = self.listing();
        let ghost k = id@;
        let p = self.slot(id.as_str());
        proof {
            lemma_sorted_slot(keys, p as int, k);
        }
        if p < self.ids.len() && str_eq(self.ids[p].as_str(), id.as_str()) {
            proof {
                assert(keys.to_set().insert(k) =~= keys.to_set());
            }
            return;
        }
        proof {
            lemma_sorted_insert(keys, p as int, k);
            assert(id_views(self.ids@.insert(p as int, id)) =~= keys.insert(p as int, k));
            lemma_insert_to_set(keys, p as int, k);
        }
        let mut v: Vec<OperationId> = Vec::new();
        std::mem::swap(&mut v, &mut self.ids);
        v.insert(p, id);
        self.ids = v;
    }

    /// Removes the id from the set, reporting whether it was there.
    pub fn remove(&mut self, id: &OperationId) -> (was: bool)
        ensures
            was == old(self).members().contains(id@),
            final(self).members() == old(self).members().remove(id@),
    {
        proof {
            use_type_invariant(&*self);
        }
        let ghost keys = self.listing();
        let ghost k = id@;
        let p = self.slot(id.as_str());
        proof {
            lemma_sorted_slot(keys, p as int, k);
        }
        if p < self.ids.len() && str_eq(self.ids[p].as_str(), id.as_str()) {
            proof {
                lemma_sorted_remove(keys, p as int);
                assert(id_views(self.ids@.remove(p as int)) =~= keys.remove(p as int));
                lemma_remove_to_set(keys, p as int);
            }
            let mut v: Vec<OperationId> = Vec::new();
            std::mem::swap(&mut v, &mut self.ids);
            v.remove(p);
            self.ids = v;
            true
        } else {
            proof {
                assert(keys.to_set().remove(k) =~= keys.to_set());
            }
            false
        }
    }

    /// Number of ids in the set; the listing is in strictly increasing order.
    pub fn len(&self) -> (n: usize)
        ensures
            n == self.listing().len(),
            strictly_sorted(self.listing()),
    {
        proof {
            use_type_invariant(self);
        }
        self.ids.len()
    }

    /// The id at a position of the listing.
    pub fn get(&self, i: usize) -> (id: &OperationId)
        requires
            i < self.listing().len(),
        ensures
            id@ == self.listing()[i as int],
    {
        &self.ids[i]
    }
}

} // verus!
