//! Lexicographic order on character sequences, the order in which the
//! registries and journals list their keys (the order of `String` keys in a
//! `BTreeMap`: code points compared one by one, a prefix first).
use vstd::prelude::*;
use crate::text::{str_eq, to_chars, views};

verus! {

/// `a` sorts strictly before `b`.
pub open spec fn lex_lt(a: Seq<char>, b: Seq<char>) -> bool
    decreases a.len(),
{
    if a.len() == 0 {
        b.len() > 0
    } else if b.len() == 0 {
        false
    } else if a[0] != b[0] {
        (a[0] as int) < (b[0] as int)
    } else {
        lex_lt(a.drop_first(), b.drop_first())
    }
}

/// A sequence of keys in strictly increasing order.
pub open spec fn strictly_sorted(keys: Seq<Seq<char>>) -> bool {
    forall|i: int, j: int| 0 <= i < j < keys.len() ==> lex_lt(#[trigger] keys[i], #[trigger] keys[j])
}

/// No key sorts before itself.
pub proof fn lemma_lex_irreflexive(a: Seq<char>)
    ensures
        !lex_lt(a, a),
    decreases a.len(),
{
    if a.len() > 0 {
        lemma_lex_irreflexive(a.drop_first());
    }
}

/// The order is transitive.
pub proof fn lemma_lex_transitive(a: Seq<char>, b: Seq<char>, c: Seq<char>)
    requires
        lex_lt(a, b),
        lex_lt(b, c),
    ensures
        lex_lt(a, c),
    decreases a.len(),
{
    if a.len() > 0 && b.len() > 0 && c.len() > 0 {
        if a[0] == b[0] && b[0] == c[0] {
            lemma_lex_transitive(a.drop_first(), b.drop_first(), c.drop_first());
        }
    }
}

/// Two distinct keys are ordered one way or the other.
pub proof fn lemma_lex_total(a: Seq<char>, b: Seq<char>)
    requires
        a != b,
    ensures
        lex_lt(a, b) || lex_lt(b, a),
    decreases a.len(),
{
    if a.len() > 0 && b.len() > 0 {
        if a[0] == b[0] {
            if a.drop_first() == b.drop_first() {
                assert(a =~= seq![a[0]] + a.drop_first());
                assert(b =~= seq![b[0]] + b.drop_first());
                assert(a =~= b);
            }
            lemma_lex_total(a.drop_first(), b.drop_first());
        } else {
            assert((a[0] as int) != (b[0] as int));
        }
    } else if a.len() == 0 && b.len() == 0 {
        assert(a =~= b);
    }
}

/// No two keys are each before the other.
pub proof fn lemma_lex_asymmetric(a: Seq<char>, b: Seq<char>)
    requires
        lex_lt(a, b),
    ensures
        !lex_lt(b, a),
{
    if lex_lt(b, a) {
        lemma_lex_transitive(a, b, a);
        lemma_lex_irreflexive(a);
    }
}


/// Where a key belongs in a sorted sequence: `p` is past every smaller key and
/// at no larger one, so the key is present exactly when it sits at `p`, and
/// every other key from `p` on is larger.
pub proof fn lemma_sorted_slot(keys: Seq<Seq<char>>, p: int, k: Seq<char>)
    requires
        strictly_sorted(keys),
        0 <= p <= keys.len(),
        forall|j: int| 0 <= j < p ==> lex_lt(#[trigger] keys[j], k),
        p == keys.len() || !lex_lt(keys[p], k),
    ensures
        forall|j: int| p <= j < keys.len() && keys[j] != k ==> lex_lt(k, #[trigger] keys[j]),
        keys.contains(k) <==> (p < keys.len() && keys[p] == k),
{
    assert forall|j: int| p <= j < keys.len() && keys[j] != k implies lex_lt(k, #[trigger] keys[j]) by {
        if j == p {
            lemma_lex_total(keys[j], k);
        } else if keys[p] == k {
        } else {
            lemma_lex_total(keys[p], k);
            lemma_lex_transitive(k, keys[p], keys[j]);
        }
    }
    if keys.contains(k) {
        let j = choose|j: int| 0 <= j < keys.len() && keys[j] == k;
        if j < p {
            lemma_lex_irreflexive(k);
        } else if j > p && keys[p] != k {
            lemma_lex_irreflexive(k);
        } else if j > p {
        }
    }
}

/// Inserting a key at its slot keeps the sequence sorted.
pub proof fn lemma_sorted_insert(keys: Seq<Seq<char>>, p: int, k: Seq<char>)
    requires
        strictly_sorted(keys),
        0 <= p <= keys.len(),
        forall|j: int| 0 <= j < p ==> lex_lt(#[trigger] keys[j], k),
        forall|j: int| p <= j < keys.len() ==> lex_lt(k, #[trigger] keys[j]),
    ensures
        strictly_sorted(keys.insert(p, k)),
{
    let r = keys.insert(p, k);
    assert forall|i: int, j: int| 0 <= i < j < r.len() implies lex_lt(#[trigger] r[i], #[trigger] r[j]) by {
        if j < p {
        } else if j == p {
        } else if i < p {
            lemma_lex_transitive(keys[i], k, keys[j - 1]);
        } else if i == p {
        } else {
        }
    }
}

/// Removing a key keeps the sequence sorted.
pub proof fn lemma_sorted_remove(keys: Seq<Seq<char>>, p: int)
    requires
        strictly_sorted(keys),
        0 <= p < keys.len(),
    ensures
        strictly_sorted(keys.remove(p)),
{
    let r = keys.remove(p);
    assert forall|i: int, j: int| 0 <= i < j < r.len() implies lex_lt(#[trigger] r[i], #[trigger] r[j]) by {
        if j < p {
        } else if i < p {
            assert(r[j] == keys[j + 1]);
        } else {
            assert(r[i] == keys[i + 1]);
            assert(r[j] == keys[j + 1]);
        }
    }
}

/// A sorted sequence holds no key twice.
pub proof fn lemma_sorted_unique(keys: Seq<Seq<char>>, i: int, j: int)
    requires
        strictly_sorted(keys),
        0 <= i < keys.len(),
        0 <= j < keys.len(),
        keys[i] == keys[j],
    ensures
        i == j,
{
    if i < j {
        lemma_lex_irreflexive(keys[i]);
    } else if j < i {
        lemma_lex_irreflexive(keys[i]);
    }
}

/// Whether `a` sorts strictly before `b`.
pub fn lex_less(a: &str, b: &str) -> (r: bool)
    ensures
        r == lex_lt(a@, b@),
{
    let va = to_chars(a);
    let vb = to_chars(b);
    let mut i: usize = 0;
    proof {
        assert(a@.subrange(0, a@.len() as int) =~= a@);
        assert(b@.subrange(0, b@.len() as int) =~= b@);
    }
    while i < va.len() && i < vb.len() && va[i] == vb[i]
        invariant
            va@ == a@,
            vb@ == b@,
            i <= va@.len(),
            i <= vb@.len(),
            lex_lt(a@, b@) == lex_lt(a@.subrange(i as int, a@.len() as int), b@.subrange(i as int, b@.len() as int)),
        decreases va@.len() - i,
    {
        proof {
            let sa = a@.subrange(i as int, a@.len() as int);
            let sb = b@.subrange(i as int, b@.len() as int);
            assert(sa.drop_first() =~= a@.subrange(i + 1, a@.len() as int));
            assert(sb.drop_first() =~= b@.subrange(i + 1, b@.len() as int));
        }
        i = i + 1;
    }
    let ghost sa = a@.subrange(i as int, a@.len() as int);
    let ghost sb = b@.subrange(i as int, b@.len() as int);
    if i == va.len() {
        i < vb.len()
    } else if i == vb.len() {
        false
    } else {
        assert(sa[0] == va@[i as int] && sb[0] == vb@[i as int]);
        va[i] < vb[i]
    }
}

/// Adds a string to a strictly sorted list of strings, unless it is there.
pub fn insert_sorted(v: &mut Vec<String>, s: String)
    requires
        strictly_sorted(views(old(v)@)),
    ensures
        strictly_sorted(views(final(v)@)),
        views(final(v)@).to_set() == views(old(v)@).to_set().insert(s@),
{
    let ghost keys = views(v@);
    let mut p: usize = 0;
    while p < v.len() && lex_less(v[p].as_str(), s.as_str())
        invariant
            keys == views(v@),
            p <= v@.len(),
            forall|j: int| 0 <= j < p ==> lex_lt(#[trigger] keys[j], s@),
        decreases v@.len() - p,
    {
        p = p + 1;
    }
    proof {
        lemma_sorted_slot(keys, p as int, s@);
    }
    if p < v.len() && str_eq(v[p].as_str(), s.as_str()) {
        proof {
            assert(keys.to_set().insert(s@) =~= keys.to_set());
        }
        return;
    }
    let ghost k = s@;
    v.insert(p, s);
    proof {
        lemma_sorted_insert(keys, p as int, k);
        assert(views(v@) =~= keys.insert(p as int, k));
        assert forall|x: Seq<char>| keys.insert(p as int, k).to_set().contains(x) <==> keys.to_set().insert(k).contains(x) by {
            if keys.insert(p as int, k).contains(x) {
                let i = choose|i: int| 0 <= i < keys.len() + 1 && keys.insert(p as int, k)[i] == x;
                if i < p {
                    assert(keys[i] == x);
                } else if i > p {
                    assert(keys[i - 1] == x);
                }
            }
            if keys.contains(x) {
                let i = choose|i: int| 0 <= i < keys.len() && keys[i] == x;
                if i < p {
                    assert(keys.insert(p as int, k)[i] == x);
                } else {
                    assert(keys.insert(p as int, k)[i + 1] == x);
                }
            }
            if x == k {
                assert(keys.insert(p as int, k)[p as int] == x);
            }
        }
        assert(views(v@).to_set() =~= keys.to_set().insert(k));
    }
}

} // verus!
