//! Facts about tab-separated journal lines: splitting a line written from
//! fields gives the fields back.
use vstd::prelude::*;
use crate::escape::{decode_spec, decode_state, encode_spec, lemma_encode_has_no_separator, Scheme, DecodeError};
use crate::text::split_spec;

verus! {

/// `s` holds no occurrence of `c`.
pub open spec fn no_char(s: Seq<char>, c: char) -> bool {
    forall|i: int| 0 <= i < s.len() ==> s[i] != c
}

/// A piece without separator splits into itself.
pub proof fn lemma_split_no_sep(y: Seq<char>, sep: char)
    requires
        no_char(y, sep),
    ensures
        split_spec(y, sep) == seq![y],
    decreases y.len(),
{
    if y.len() > 0 {
        lemma_split_no_sep(y.drop_last(), sep);
        assert(y.drop_last().push(y.last()) =~= y);
        assert(seq![y.drop_last()].update(0, y) =~= seq![y]);
    } else {
        assert(y =~= Seq::<char>::empty());
    }
}

/// Appending a separator and a piece without separator adds one piece.
pub proof fn lemma_split_append(x: Seq<char>, y: Seq<char>, sep: char)
    requires
        no_char(y, sep),
    ensures
        split_spec(x + seq![sep] + y, sep) == split_spec(x, sep).push(y),
    decreases y.len(),
{
    if y.len() == 0 {
        assert((x + seq![sep] + y).drop_last() =~= x);
        assert(y =~= Seq::<char>::empty());
    } else {
        let y0 = y.drop_last();
        lemma_split_append(x, y0, sep);
        assert((x + seq![sep] + y).drop_last() =~= x + seq![sep] + y0);
        assert((x + seq![sep] + y).last() == y.last());
        let prev = split_spec(x, sep).push(y0);
        assert(y0.push(y.last()) =~= y);
        assert(prev.last() == y0);
        assert(prev.update(prev.len() - 1, y) =~= split_spec(x, sep).push(y));
        assert(prev.update(prev.len() - 1, prev.last().push(y.last())) =~= split_spec(x, sep).push(y));
    }
}

/// A field without backslash decodes to itself.
pub proof fn lemma_decode_plain(scheme: Scheme, s: Seq<char>)
    requires
        no_char(s, '\\'),
    ensures
        decode_spec(scheme, s) == Ok::<Seq<char>, DecodeError>(s),
{
    lemma_decode_plain_state(scheme, s);
}

proof fn lemma_decode_plain_state(scheme: Scheme, s: Seq<char>)
    requires
        no_char(s, '\\'),
    ensures
        decode_state(scheme, s) == Ok::<(Seq<char>, bool), DecodeError>((s, false)),
    decreases s.len(),
{
    if s.len() > 0 {
        lemma_decode_plain_state(scheme, s.drop_last());
        assert(s.drop_last().push(s.last()) =~= s);
    } else {
        assert(s =~= Seq::<char>::empty());
    }
}

/// An encoded journal field holds no tab.
pub proof fn lemma_encoded_has_no_tab(s: Seq<char>)
    ensures
        no_char(encode_spec(Scheme::Journal, s), '\t'),
{
    assert forall|i: int| 0 <= i < encode_spec(Scheme::Journal, s).len() implies encode_spec(Scheme::Journal, s)[i] != '\t' by {
        lemma_encode_has_no_separator(Scheme::Journal, s, i);
    }
}

/// The tab literal.
pub proof fn lemma_tab_literal()
    ensures
        "\t"@ == seq!['\t'],
{
    reveal_strlit("\t");
}

} // verus!
