//! Keyed records and the "latest record per key, in key order" listing that
//! the approval and operation journals read back.
use vstd::prelude::*;
use crate::order::{lex_lt, strictly_sorted, lemma_lex_total, lemma_lex_transitive, lemma_lex_irreflexive, lex_less};
use crate::text::str_eq;

verus! {

/// A record identified by a text key.
pub trait Keyed: Sized {
    /// The record's key.
    spec fn key(&self) -> Seq<char>;

    /// The record's key as text.
    fn key_str(&self) -> (s: &str)
        ensures
            s@ == self.key(),
    ;
}

/// A keyed record that can be copied exactly.
pub trait KeyedCopy: Keyed {
    /// An identical copy of the record.
    fn duplicate(&self) -> (r: Self)
        ensures
            r == *self,
    ;
}

/// For each key, the last record with that key.
pub open spec fn latest_map<T: Keyed>(items: Seq<T>) -> Map<Seq<char>, T>
    decreases items.len(),
{
    if items.len() == 0 {
        Map::empty()
    } else {
        latest_map(items.drop_last()).insert(items.last().key(), items.last())
    }
}

/// The keys of a sequence of records.
pub open spec fn keys_of<T: Keyed>(v: Seq<T>) -> Seq<Seq<char>> {
    v.map_values(|x: T| x.key())
}

/// `out` lists exactly the entries of `m`, in increasing key order.
pub open spec fn lists_map<T: Keyed>(out: Seq<T>, m: Map<Seq<char>, T>) -> bool {
    &&& strictly_sorted(keys_of(out))
    &&& forall|k: Seq<char>| #[trigger]
        m.dom().contains(k) <==> exists|i: int| 0 <= i < out.len() && (#[trigger] out[i]).key() == k
    &&& forall|i: int| 0 <= i < out.len() ==> m.dom().contains((#[trigger] out[i]).key()) && m[out[i].key()] == out[i]
}

/// Adds a record to a listing of a map, replacing the record with the same
/// key: the listing then lists the map with the record inserted.
pub fn upsert<T: Keyed>(out: &mut Vec<T>, item: T, Ghost(m): Ghost<Map<Seq<char>, T>>)
    requires
        lists_map(old(out)@, m),
    ensures
        lists_map(final(out)@, m.insert(item.key(), item)),
{
    let ghost prev = out@;
    let ghost m2 = m.insert(item.key(), item);
    let key = item.key_str();
    let mut p: usize = 0;
    while p < out.len() && lex_less(out[p].key_str(), key)
        invariant
            out@ == prev,
            key@ == item.key(),
            p <= out@.len(),
            forall|j: int| 0 <= j < p ==> lex_lt((#[trigger] out@[j]).key(), key@),
        decreases out@.len() - p,
    {
        p = p + 1;
    }
    let found = p < out.len() && str_eq(out[p].key_str(), key);
    let ghost k = item.key();
    proof {
        // every entry at or after p sorts after or equals the key
        assert forall|j: int| p <= j < prev.len() && prev[j].key() != k implies lex_lt(k, #[trigger] prev[j].key()) by {
            if j == p {
                lemma_lex_total(prev[j].key(), k);
            } else {
                assert(keys_of(prev)[p as int] == prev[p as int].key());
                assert(keys_of(prev)[j] == prev[j].key());
                assert(lex_lt(prev[p as int].key(), prev[j].key()));
                if prev[p as int].key() == k {
                } else {
                    lemma_lex_total(prev[p as int].key(), k);
                    lemma_lex_transitive(k, prev[p as int].key(), prev[j].key());
                }
            }
        }
    }
    if found {
        let ghost it = item;
        out.remove(p);
        out.insert(p, item);
        proof {
            assert(out@ =~= prev.update(p as int, it));
            assert forall|i: int, j: int| 0 <= i < j < out@.len() implies lex_lt(
                #[trigger] keys_of(out@)[i],
                #[trigger] keys_of(out@)[j],
            ) by {
                assert(keys_of(prev)[i] == prev[i].key());
                assert(keys_of(prev)[j] == prev[j].key());
            }
            assert forall|kk: Seq<char>| #[trigger]
                m2.dom().contains(kk) <==> exists|i: int| 0 <= i < out@.len() && (#[trigger] out@[i]).key() == kk by {
                if m2.dom().contains(kk) && kk != k {
                    let i = choose|i: int| 0 <= i < prev.len() && (#[trigger] prev[i]).key() == kk;
                    assert(out@[i].key() == kk);
                }
                if m2.dom().contains(kk) && kk == k {
                    assert(out@[p as int].key() == kk);
                }
            }
            assert forall|i: int| 0 <= i < out@.len() implies m2.dom().contains((#[trigger] out@[i]).key()) && m2[out@[i].key()] == out@[i] by {
                if i != p {
                    assert(out@[i] == prev[i]);
                    assert(keys_of(prev)[i] == prev[i].key());
                    assert(keys_of(prev)[p as int] == prev[p as int].key());
                    if i < p {
                        assert(lex_lt(prev[i].key(), prev[p as int].key()));
                    } else {
                        assert(lex_lt(prev[p as int].key(), prev[i].key()));
                    }
                    lemma_lex_irreflexive(k);
                }
            }
        }
    } else {
        let ghost it = item;
        out.insert(p, item);
        proof {
            assert(out@ =~= prev.insert(p as int, it));
            assert forall|j: int| p <= j < prev.len() implies lex_lt(k, #[trigger] prev[j].key()) by {
                if prev[j].key() == k {
                    if j == p {
                    } else {
                        assert(keys_of(prev)[p as int] == prev[p as int].key());
                        assert(keys_of(prev)[j] == prev[j].key());
                        assert(lex_lt(prev[p as int].key(), prev[j].key()));
                        lemma_lex_total(prev[p as int].key(), k);
                        lemma_lex_transitive(k, prev[p as int].key(), prev[j].key());
                        lemma_lex_irreflexive(k);
                    }
                }
            }
            assert forall|i: int, j: int| 0 <= i < j < out@.len() implies lex_lt(
                #[trigger] keys_of(out@)[i],
                #[trigger] keys_of(out@)[j],
            ) by {
                if j < p {
                    assert(keys_of(prev)[i] == prev[i].key());
                    assert(keys_of(prev)[j] == prev[j].key());
                } else if j == p {
                } else if i < p {
                    assert(out@[j] == prev[j - 1]);
                    lemma_lex_transitive(prev[i].key(), k, prev[j - 1].key());
                } else if i == p {
                    assert(out@[j] == prev[j - 1]);
                } else {
                    assert(keys_of(prev)[i - 1] == prev[i - 1].key());
                    assert(keys_of(prev)[j - 1] == prev[j - 1].key());
                }
            }
            assert(!m.dom().contains(k)) by {
                if m.dom().contains(k) {
                    let i = choose|i: int| 0 <= i < prev.len() && (#[trigger] prev[i]).key() == k;
                    if i < p {
                        lemma_lex_irreflexive(k);
                    } else {
                        lemma_lex_irreflexive(k);
                    }
                }
            }
            assert forall|kk: Seq<char>| #[trigger]
                m2.dom().contains(kk) <==> exists|i: int| 0 <= i < out@.len() && (#[trigger] out@[i]).key() == kk by {
                if m2.dom().contains(kk) && kk != k {
                    let i = choose|i: int| 0 <= i < prev.len() && (#[trigger] prev[i]).key() == kk;
                    if i < p {
                        assert(out@[i].key() == kk);
                    } else {
                        assert(out@[i + 1].key() == kk);
                    }
                }
                if m2.dom().contains(kk) && kk == k {
                    assert(out@[p as int].key() == kk);
                }
                if exists|i: int| 0 <= i < out@.len() && (#[trigger] out@[i]).key() == kk {
                    let i = choose|i: int| 0 <= i < out@.len() && (#[trigger] out@[i]).key() == kk;
                    if i < p {
                        assert(out@[i] == prev[i]);
                    } else if i > p {
                        assert(out@[i] == prev[i - 1]);
                    }
                }
            }
            assert forall|i: int| 0 <= i < out@.len() implies m2.dom().contains((#[trigger] out@[i]).key()) && m2[out@[i].key()] == out@[i] by {
                if i < p {
                    assert(out@[i] == prev[i]);
                    assert(lex_lt(prev[i].key(), k));
                    lemma_lex_irreflexive(k);
                } else if i > p {
                    assert(out@[i] == prev[i - 1]);
                    assert(lex_lt(k, prev[i - 1].key()));
                    lemma_lex_irreflexive(k);
                }
            }
        }
    }
}

/// The latest record of every key, sorted by key.
pub fn latest_by_key<T: KeyedCopy>(items: &Vec<T>) -> (out: Vec<T>)
    ensures
        lists_map(out@, latest_map(items@)),
{
    let mut out: Vec<T> = Vec::new();
    let mut n: usize = 0;
    proof {
        assert(items@.subrange(0, 0) =~= Seq::<T>::empty());
    }
    while n < items.len()
        invariant
            n <= items@.len(),
            lists_map(out@, latest_map(items@.subrange(0, n as int))),
        decreases items@.len() - n,
    {
        let ghost m = latest_map(items@.subrange(0, n as int));
        proof {
            assert(items@.subrange(0, n + 1).drop_last() =~= items@.subrange(0, n as int));
            assert(items@.subrange(0, n + 1).last() == items@[n as int]);
        }
        let copy = items[n].duplicate();
        upsert(&mut out, copy, Ghost(m));
        n = n + 1;
    }
    proof {
        assert(items@.subrange(0, items@.len() as int) =~= items@);
    }
    out
}

/// The entries of a map that satisfy a predicate.
pub open spec fn filtered_map<T>(m: Map<Seq<char>, T>, pred: spec_fn(T) -> bool) -> Map<Seq<char>, T> {
    Map::new(|k: Seq<char>| m.dom().contains(k) && pred(m[k]), |k: Seq<char>| m[k])
}

/// Filtering a listing of a map lists the part of the map the filter keeps.
pub proof fn lemma_filter_lists<T: Keyed>(listing: Seq<T>, m: Map<Seq<char>, T>, pred: spec_fn(T) -> bool)
    requires
        lists_map(listing, m),
    ensures
        lists_map(listing.filter(pred), filtered_map(m, pred)),
    decreases listing.len(),
{
    let rm = filtered_map(m, pred);
    let f = listing.filter(pred);
    reveal(Seq::filter);
    lemma_filter_sorted(listing, pred);
    assert forall|k: Seq<char>| #[trigger] rm.dom().contains(k) <==> exists|i: int| 0 <= i < f.len() && (#[trigger] f[i]).key() == k by {
        if rm.dom().contains(k) {
            let i = choose|i: int| 0 <= i < listing.len() && (#[trigger] listing[i]).key() == k;
            assert(pred(listing[i]));
            listing.lemma_filter_contains(pred, i);
            let j = choose|j: int| 0 <= j < f.len() && f[j] == listing[i];
            assert(f[j].key() == k);
        }
        if exists|i: int| 0 <= i < f.len() && (#[trigger] f[i]).key() == k {
            let i = choose|i: int| 0 <= i < f.len() && (#[trigger] f[i]).key() == k;
            assert(f.contains(f[i]));
            listing.lemma_filter_contains_rev(pred, f[i]);
            listing.lemma_filter_pred(pred, i);
            let j = choose|j: int| 0 <= j < listing.len() && listing[j] == f[i];
            assert(listing[j].key() == k);
        }
    }
    assert forall|i: int| 0 <= i < f.len() implies rm.dom().contains((#[trigger] f[i]).key()) && rm[f[i].key()] == f[i] by {
        assert(f.contains(f[i]));
        listing.lemma_filter_contains_rev(pred, f[i]);
        listing.lemma_filter_pred(pred, i);
        let j = choose|j: int| 0 <= j < listing.len() && listing[j] == f[i];
        assert(listing[j].key() == f[i].key());
    }
}

/// Filtering a listing sorted by key keeps it sorted.
pub proof fn lemma_filter_sorted<T: Keyed>(s: Seq<T>, pred: spec_fn(T) -> bool)
    requires
        strictly_sorted(keys_of(s)),
    ensures
        strictly_sorted(keys_of(s.filter(pred))),
    decreases s.len(),
{
    reveal(Seq::filter);
    if s.len() > 0 {
        let t = s.drop_last();
        assert(strictly_sorted(keys_of(t))) by {
            assert forall|i: int, j: int| 0 <= i < j < t.len() implies lex_lt(
                #[trigger] keys_of(t)[i],
                #[trigger] keys_of(t)[j],
            ) by {
                assert(keys_of(s)[i] == s[i].key());
                assert(keys_of(s)[j] == s[j].key());
            }
        }
        lemma_filter_sorted(t, pred);
        let ft = t.filter(pred);
        let fs = s.filter(pred);
        if pred(s.last()) {
            assert(fs == ft.push(s.last()));
            assert forall|i: int, j: int| 0 <= i < j < fs.len() implies lex_lt(
                #[trigger] keys_of(fs)[i],
                #[trigger] keys_of(fs)[j],
            ) by {
                if j < ft.len() {
                    assert(keys_of(ft)[i] == ft[i].key());
                    assert(keys_of(ft)[j] == ft[j].key());
                } else {
                    assert(ft.contains(ft[i]));
                    t.lemma_filter_contains_rev(pred, ft[i]);
                    let a = choose|a: int| 0 <= a < t.len() && t[a] == ft[i];
                    assert(keys_of(s)[a] == s[a].key());
                    assert(keys_of(s)[s.len() - 1] == s.last().key());
                }
            }
        } else {
            assert(fs == ft);
        }
    }
}



/// Position of the record with a key in a listing of a map.
pub fn find_key<T: Keyed>(out: &Vec<T>, key: &str, Ghost(m): Ghost<Map<Seq<char>, T>>) -> (r: Option<usize>)
    requires
        lists_map(out@, m),
    ensures
        match r {
            Some(i) => i < out@.len() && out@[i as int].key() == key@ && m.dom().contains(key@) && m[key@]
                == out@[i as int],
            None => !m.dom().contains(key@),
        },
{
    let mut i: usize = 0;
    while i < out.len()
        invariant
            lists_map(out@, m),
            i <= out@.len(),
            forall|j: int| 0 <= j < i ==> (#[trigger] out@[j]).key() != key@,
        decreases out@.len() - i,
    {
        if str_eq(out[i].key_str(), key) {
            return Some(i);
        }
        i = i + 1;
    }
    None
}


/// The record kept for a key has that key.
pub proof fn lemma_latest_map_key<T: Keyed>(items: Seq<T>, k: Seq<char>)
    requires
        latest_map(items).dom().contains(k),
    ensures
        latest_map(items)[k].key() == k,
    decreases items.len(),
{
    if items.len() > 0 && items.last().key() != k {
        lemma_latest_map_key(items.drop_last(), k);
    }
}

} // verus!
