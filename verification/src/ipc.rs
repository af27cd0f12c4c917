//! Field encoding of the local protocol between the console and its control
//! client: one request or reply per line, so a field may not hold a line
//! break of its own. Finding and opening the socket is the caller's.
use vstd::prelude::*;
use crate::escape::{decode, decode_spec, decode_state, encode, encode_spec, lemma_decode_encode, lemma_encode_has_no_separator, DecodeError, Scheme};

verus! {

/// The protocol decoder never fails: an unknown escape stands for its
/// character, and a trailing backslash for itself.
pub proof fn lemma_protocol_decode_total(s: Seq<char>)
    ensures
        decode_state(Scheme::Protocol, s) is Ok,
        decode_spec(Scheme::Protocol, s) is Ok,
    decreases s.len(),
{
    if s.len() > 0 {
        lemma_protocol_decode_total(s.drop_last());
    }
}

/// The decoded text of a protocol field.
pub open spec fn decoded_field(s: Seq<char>) -> Seq<char> {
    match decode_spec(Scheme::Protocol, s) {
        Ok(t) => t,
        Err(_) => s,
    }
}

/// Encode a single protocol field without allowing it to create new lines:
/// backslash, newline and carriage return are escaped.
pub fn encode_field(value: &str) -> (r: String)
    ensures
        r@ == encode_spec(Scheme::Protocol, value@),
{
    encode(Scheme::Protocol, value)
}

/// Decode a protocol field.
pub fn decode_field(value: &str) -> (r: String)
    ensures
        r@ == decoded_field(value@),
        decode_spec(Scheme::Protocol, value@) == Ok::<Seq<char>, DecodeError>(r@),
{
    proof {
        lemma_protocol_decode_total(value@);
    }
    match decode(Scheme::Protocol, value) {
        Ok(s) => s,
        Err(_) => {
            proof {
                assert(false);
            }
            String::new()
        },
    }
}

/// Decoding a field gives back exactly the text that was encoded, and the
/// encoded field holds no newline or carriage return.
pub proof fn lemma_field_round_trip(s: Seq<char>)
    ensures
        decoded_field(encode_spec(Scheme::Protocol, s)) == s,
        forall|i: int| 0 <= i < encode_spec(Scheme::Protocol, s).len() ==> {
            &&& #[trigger] encode_spec(Scheme::Protocol, s)[i] != '\n'
            &&& encode_spec(Scheme::Protocol, s)[i] != '\r'
        },
{
    lemma_decode_encode(Scheme::Protocol, s);
    assert forall|i: int| 0 <= i < encode_spec(Scheme::Protocol, s).len() implies {
        &&& #[trigger] encode_spec(Scheme::Protocol, s)[i] != '\n'
        &&& encode_spec(Scheme::Protocol, s)[i] != '\r'
    } by {
        lemma_encode_has_no_separator(Scheme::Protocol, s, i);
    }
}

} // verus!
