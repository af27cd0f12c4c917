//! Backslash escaping used by the line-oriented journals and the local protocol.
//!
//! Two schemes exist. The journal scheme (approval, evidence and operation
//! logs) escapes backslash, tab and newline, and refuses unknown escapes and a
//! trailing backslash. The protocol scheme (console IPC fields) escapes
//! backslash, newline and carriage return, and passes other escapes through.
use vstd::prelude::*;
use crate::text::push_char;
use crate::text::to_chars;

verus! {

/// Which escaping rules apply.
#[derive(Clone, Copy, Debug, PartialEq, Eq, Structural)]
pub enum Scheme {
    /// Tab-separated journal records.
    Journal,
    /// Newline-delimited protocol fields.
    Protocol,
}

/// Why a journal field could not be decoded.
#[derive(Clone, Copy, Debug, PartialEq, Eq, Structural)]
pub enum DecodeError {
    /// A backslash was followed by an unsupported character.
    UnknownEscape(char),
    /// The field ended in the middle of an escape.
    TrailingEscape,
}

/// The encoding of one character.
pub open spec fn escape_char(scheme: Scheme, c: char) -> Seq<char> {
    if c == '\\' {
        seq!['\\', '\\']
    } else if c == '\n' {
        seq!['\\', 'n']
    } else if scheme == Scheme::Journal && c == '\t' {
        seq!['\\', 't']
    } else if scheme == Scheme::Protocol && c == '\r' {
        seq!['\\', 'r']
    } else {
        seq![c]
    }
}

/// The encoding of a field.
pub open spec fn encode_spec(scheme: Scheme, s: Seq<char>) -> Seq<char>
    decreases s.len(),
{
    if s.len() == 0 {
        Seq::empty()
    } else {
        encode_spec(scheme, s.drop_last()) + escape_char(scheme, s.last())
    }
}

/// Decoder state after reading a prefix: the output so far and whether a
/// backslash is pending, or the error met.
pub open spec fn decode_state(scheme: Scheme, s: Seq<char>) -> Result<(Seq<char>, bool), DecodeError>
    decreases s.len(),
{
    if s.len() == 0 {
        Ok((Seq::empty(), false))
    } else {
        decode_step(scheme, decode_state(scheme, s.drop_last()), s.last())
    }
}

/// The character an escape sequence `\c` stands for, if the scheme knows it.
pub open spec fn unescape(scheme: Scheme, c: char) -> Option<char> {
    if c == 'n' {
        Some('\n')
    } else if c == '\\' {
        Some('\\')
    } else if scheme == Scheme::Journal && c == 't' {
        Some('\t')
    } else if scheme == Scheme::Protocol && c == 'r' {
        Some('\r')
    } else if scheme == Scheme::Protocol {
        Some(c)
    } else {
        None
    }
}

/// One decoder step.
pub open spec fn decode_step(
    scheme: Scheme,
    st: Result<(Seq<char>, bool), DecodeError>,
    c: char,
) -> Result<(Seq<char>, bool), DecodeError> {
    match st {
        Err(e) => Err(e),
        Ok((out, escaped)) => if escaped {
            match unescape(scheme, c) {
                Some(d) => Ok((out.push(d), false)),
                None => Err(DecodeError::UnknownEscape(c)),
            }
        } else if c == '\\' {
            Ok((out, true))
        } else {
            Ok((out.push(c), false))
        },
    }
}

/// The decoding of a field: the journal scheme refuses a trailing backslash,
/// the protocol scheme keeps it.
pub open spec fn decode_spec(scheme: Scheme, s: Seq<char>) -> Result<Seq<char>, DecodeError> {
    match decode_state(scheme, s) {
        Err(e) => Err(e),
        Ok((out, escaped)) => if !escaped {
            Ok(out)
        } else if scheme == Scheme::Journal {
            Err(DecodeError::TrailingEscape)
        } else {
            Ok(out.push('\\'))
        },
    }
}

/// Encodes a field so it holds no separator or line break.
pub fn encode(scheme: Scheme, value: &str) -> (r: String)
    ensures
        r@ == encode_spec(scheme, value@),
{
    let v = to_chars(value);
    let mut out = String::new();
    let mut i: usize = 0;
    while i < v.len()
        invariant
            v@ == value@,
            i <= v@.len(),
            out@ == encode_spec(scheme, v@.subrange(0, i as int)),
        decreases v@.len() - i,
    {
        let c = v[i];
        proof {
            assert(v@.subrange(0, i + 1).drop_last() =~= v@.subrange(0, i as int));
        }
        if c == '\\' {
            push_char(&mut out, '\\');
            push_char(&mut out, '\\');
        } else if c == '\n' {
            push_char(&mut out, '\\');
            push_char(&mut out, 'n');
        } else if scheme == Scheme::Journal && c == '\t' {
            push_char(&mut out, '\\');
            push_char(&mut out, 't');
        } else if scheme == Scheme::Protocol && c == '\r' {
            push_char(&mut out, '\\');
            push_char(&mut out, 'r');
        } else {
            push_char(&mut out, c);
        }
        proof {
            assert(out@ =~= encode_spec(scheme, v@.subrange(0, i as int)) + escape_char(scheme, c));
        }
        i = i + 1;
    }
    proof {
        assert(v@.subrange(0, v@.len() as int) =~= v@);
    }
    out
}

/// Decodes a field written by [`encode`].
pub fn decode(scheme: Scheme, value: &str) -> (r: Result<String, DecodeError>)
    ensures
        match decode_spec(scheme, value@) {
            Ok(s) => r matches Ok(t) && t@ == s,
            Err(e) => r == Err::<String, DecodeError>(e),
        },
{
    let v = to_chars(value);
    let mut out = String::new();
    let mut escaped = false;
    let mut i: usize = 0;
    while i < v.len()
        invariant
            v@ == value@,
            i <= v@.len(),
            decode_state(scheme, v@.subrange(0, i as int)) == Ok::<(Seq<char>, bool), DecodeError>(
                (out@, escaped),
            ),
        decreases v@.len() - i,
    {
        let c = v[i];
        proof {
            assert(v@.subrange(0, i + 1).drop_last() =~= v@.subrange(0, i as int));
        }
        if escaped {
            if c == 'n' {
                push_char(&mut out, '\n');
            } else if c == '\\' {
                push_char(&mut out, '\\');
            } else if scheme == Scheme::Journal && c == 't' {
                push_char(&mut out, '\t');
            } else if scheme == Scheme::Protocol && c == 'r' {
                push_char(&mut out, '\r');
            } else if scheme == Scheme::Protocol {
                push_char(&mut out, c);
            } else {
                proof {
                    lemma_error_persists(scheme, v@, i as int + 1, DecodeError::UnknownEscape(c));
                }
                return Err(DecodeError::UnknownEscape(c));
            }
            escaped = false;
        } else if c == '\\' {
            escaped = true;
        } else {
            push_char(&mut out, c);
        }
        i = i + 1;
    }
    proof {
        assert(v@.subrange(0, v@.len() as int) =~= v@);
    }
    if escaped {
        if scheme == Scheme::Journal {
            return Err(DecodeError::TrailingEscape);
        }
        push_char(&mut out, '\\');
    }
    Ok(out)
}


/// Decodes fields in order, stopping at the first that fails.
pub open spec fn decode_all_spec(scheme: Scheme, fields: Seq<Seq<char>>) -> Result<Seq<Seq<char>>, DecodeError>
    decreases fields.len(),
{
    if fields.len() == 0 {
        Ok(Seq::empty())
    } else {
        match decode_all_spec(scheme, fields.drop_last()) {
            Err(e) => Err(e),
            Ok(done) => match decode_spec(scheme, fields.last()) {
                Err(e) => Err(e),
                Ok(x) => Ok(done.push(x)),
            },
        }
    }
}

/// Decodes every field of a record, reporting the first failure.
pub fn decode_all(scheme: Scheme, fields: &Vec<String>) -> (r: Result<Vec<String>, DecodeError>)
    ensures
        match decode_all_spec(scheme, fields@.map_values(|f: String| f@)) {
            Ok(fs) => r matches Ok(v) && v@.len() == fs.len() && forall|i: int| 0 <= i < fs.len() ==> (#[trigger] v@[i])@ == fs[i],
            Err(e) => r == Err::<Vec<String>, DecodeError>(e),
        },
{
    let ghost views = fields@.map_values(|f: String| f@);
    let mut out: Vec<String> = Vec::new();
    let mut i: usize = 0;
    while i < fields.len()
        invariant
            views == fields@.map_values(|f: String| f@),
            i <= fields@.len(),
            decode_all_spec(scheme, views.subrange(0, i as int)) matches Ok(fs) && out@.len() == fs.len()
                && forall|k: int| 0 <= k < fs.len() ==> (#[trigger] out@[k])@ == fs[k],
        decreases fields@.len() - i,
    {
        proof {
            assert(views.subrange(0, i + 1).drop_last() =~= views.subrange(0, i as int));
            assert(views.subrange(0, i + 1).last() == fields@[i as int]@);
        }
        match decode(scheme, fields[i].as_str()) {
            Err(e) => {
                proof {
                    lemma_decode_all_error_persists(scheme, views, i as int + 1, e);
                }
                return Err(e);
            },
            Ok(x) => {
                out.push(x);
            },
        }
        i = i + 1;
    }
    proof {
        assert(views.subrange(0, fields@.len() as int) =~= views);
    }
    Ok(out)
}

/// Once a field fails to decode, decoding more fields keeps that error.
pub proof fn lemma_decode_all_error_persists(scheme: Scheme, fs: Seq<Seq<char>>, k: int, e: DecodeError)
    requires
        0 <= k <= fs.len(),
        decode_all_spec(scheme, fs.subrange(0, k)) == Err::<Seq<Seq<char>>, DecodeError>(e),
    ensures
        decode_all_spec(scheme, fs) == Err::<Seq<Seq<char>>, DecodeError>(e),
    decreases fs.len() - k,
{
    if k < fs.len() {
        assert(fs.subrange(0, k + 1).drop_last() =~= fs.subrange(0, k));
        lemma_decode_all_error_persists(scheme, fs, k + 1, e);
    } else {
        assert(fs.subrange(0, k) =~= fs);
    }
}

/// Message for a refused journal field.
pub open spec fn decode_error_text(e: DecodeError, trailing: Seq<char>) -> Seq<char> {
    match e {
        DecodeError::UnknownEscape(c) => "unknown escape: \\"@.push(c),
        DecodeError::TrailingEscape => trailing,
    }
}

/// The message of a decoding failure; `trailing` is the caller's wording for
/// a field that ends inside an escape.
pub fn decode_error_message(e: DecodeError, trailing: &str) -> (s: String)
    ensures
        s@ == decode_error_text(e, trailing@),
{
    match e {
        DecodeError::UnknownEscape(c) => {
            let mut s = String::from_str("unknown escape: \\");
            push_char(&mut s, c);
            s
        },
        DecodeError::TrailingEscape => String::from_str(trailing),
    }
}

/// Once the decoder has failed, reading more characters keeps the same error.
pub proof fn lemma_error_persists(scheme: Scheme, s: Seq<char>, k: int, e: DecodeError)
    requires
        0 <= k <= s.len(),
        decode_state(scheme, s.subrange(0, k)) == Err::<(Seq<char>, bool), DecodeError>(e),
    ensures
        decode_state(scheme, s) == Err::<(Seq<char>, bool), DecodeError>(e),
    decreases s.len() - k,
{
    if k < s.len() {
        assert(s.subrange(0, k + 1).drop_last() =~= s.subrange(0, k));
        lemma_error_persists(scheme, s, k + 1, e);
    } else {
        assert(s.subrange(0, k) =~= s);
    }
}

/// Decoding a prefix followed by one more character.
proof fn lemma_decode_push(scheme: Scheme, t: Seq<char>, x: char)
    ensures
        decode_state(scheme, t.push(x)) == decode_step(scheme, decode_state(scheme, t), x),
{
    assert(t.push(x).drop_last() =~= t);
}

/// Decoding the encoding of a sequence yields the sequence, with no
/// backslash pending.
pub proof fn lemma_decode_encode_state(scheme: Scheme, s: Seq<char>)
    ensures
        decode_state(scheme, encode_spec(scheme, s)) == Ok::<(Seq<char>, bool), DecodeError>(
            (s, false),
        ),
    decreases s.len(),
{
    if s.len() > 0 {
        let t = s.drop_last();
        let c = s.last();
        lemma_decode_encode_state(scheme, t);
        let et = encode_spec(scheme, t);
        let ec = escape_char(scheme, c);
        assert(encode_spec(scheme, s) == et + ec);
        assert(t.push(c) =~= s);
        if ec.len() == 1 {
            assert(ec[0] == c && c != '\\');
            assert(et + ec =~= et.push(ec[0]));
            lemma_decode_push(scheme, et, ec[0]);
            assert(decode_state(scheme, et.push(ec[0])) == Ok::<(Seq<char>, bool), DecodeError>((t.push(c), false)));
        } else {
            assert(ec[0] == '\\');
            assert(unescape(scheme, ec[1]) == Some(c));
            assert(et + ec =~= et.push(ec[0]).push(ec[1]));
            lemma_decode_push(scheme, et, ec[0]);
            assert(decode_state(scheme, et.push(ec[0])) == Ok::<(Seq<char>, bool), DecodeError>((t, true)));
            lemma_decode_push(scheme, et.push(ec[0]), ec[1]);
            assert(decode_state(scheme, et.push(ec[0]).push(ec[1])) == Ok::<(Seq<char>, bool), DecodeError>((t.push(c), false)));
        }
    } else {
        assert(encode_spec(scheme, s) =~= Seq::<char>::empty());
        assert(s =~= Seq::<char>::empty());
    }
}

/// Decoding undoes encoding, for both schemes and every field.
pub proof fn lemma_decode_encode(scheme: Scheme, s: Seq<char>)
    ensures
        decode_spec(scheme, encode_spec(scheme, s)) == Ok::<Seq<char>, DecodeError>(s),
{
    lemma_decode_encode_state(scheme, s);
}

/// An encoded field holds no tab, newline or carriage return of its own
/// under the scheme that escapes it.
pub proof fn lemma_encode_has_no_separator(scheme: Scheme, s: Seq<char>, i: int)
    requires
        0 <= i < encode_spec(scheme, s).len(),
    ensures
        encode_spec(scheme, s)[i] != '\n',
        scheme == Scheme::Journal ==> encode_spec(scheme, s)[i] != '\t',
        scheme == Scheme::Protocol ==> encode_spec(scheme, s)[i] != '\r',
    decreases s.len(),
{
    if s.len() > 0 {
        let t = s.drop_last();
        let et = encode_spec(scheme, t);
        if i < et.len() {
            lemma_encode_has_no_separator(scheme, t, i);
        }
    }
}

} // verus!
