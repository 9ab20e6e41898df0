//! Query strings: fields as `application/x-www-form-urlencoded` text.

use crate::client::{serialized, PDLError};
use crate::wire::{scalar_string, scalar_text, Field, WireFields};
use vstd::prelude::*;

verus! {

/// `serde_urlencoded::ser::Error`, taken as it comes: nothing is claimed of
/// what it holds.
#[verifier::external_type_specification]
#[verifier::external_body]
pub struct ExFormError(serde_urlencoded::ser::Error);

/// What `serde_urlencoded::to_string` makes of a sequence of key-value pairs:
/// the encoded text, or `None` where it reports an error.
pub uninterp spec fn form_encoded(pairs: Seq<(Seq<char>, Seq<char>)>) -> Option<Seq<char>>;

/// Calls `serde_urlencoded::to_string` on the pairs. The contract claims only
/// that the outcome is the one named by [`form_encoded`] for these pairs.
#[verifier::external_body]
fn form_encode(pairs: &Vec<(String, String)>) -> (r: Result<String, serde_urlencoded::ser::Error>)
    ensures
        match r {
            Ok(text) => form_encoded(pairs.deep_view()) == Some(text@),
            Err(_) => form_encoded(pairs.deep_view()) is None,
        },
{
    serde_urlencoded::to_string(pairs)
}

/// The fields with every value written as plain text, in the same order.
pub open spec fn query_pairs(fields: WireFields) -> Seq<(Seq<char>, Seq<char>)> {
    Seq::new(fields.len(), |i: int| (fields[i].0, scalar_text(fields[i].1)))
}

/// The query string of the fields, where the encoder yields one.
pub open spec fn query_string(fields: WireFields) -> Option<Seq<char>> {
    form_encoded(query_pairs(fields))
}

/// Groups laid side by side stay at one level: the pairs of the whole are
/// the pairs of the first group followed by those of the second, one pair for
/// each field and each under its own key.
pub proof fn lemma_query_pairs_flat(first: WireFields, second: WireFields)
    ensures
        query_pairs(first + second) == query_pairs(first) + query_pairs(second),
        query_pairs(first).len() == first.len(),
        forall|i: int| 0 <= i < first.len() ==> (#[trigger] query_pairs(first)[i]).0 == first[i].0,
{
    assert(query_pairs(first + second) =~= query_pairs(first) + query_pairs(second));
}

/// Writes every value as plain text and keeps keys and order.
pub fn to_query_pairs(fields: &Vec<Field>) -> (r: Vec<(String, String)>)
    ensures
        r.deep_view() == query_pairs(fields.deep_view()),
{
    let mut out: Vec<(String, String)> = Vec::new();
    let mut i: usize = 0;
    while i < fields.len()
        invariant
            i <= fields.len(),
            out.len() == i,
            forall|k: int|
                0 <= k < i ==> (#[trigger] out[k]).0@ == fields[k].0@ && out[k].1@ == scalar_text(
                    fields[k].1.deep_view(),
                ),
        decreases fields.len() - i,
    {
        let key = fields[i].0.clone();
        let value = scalar_string(&fields[i].1);
        out.push((key, value));
        i += 1;
    }
    assert(out.deep_view() =~= query_pairs(fields.deep_view()));
    out
}

/// The outcome of encoding, as this library reports it.
pub fn query_outcome(encoded: Result<String, serde_urlencoded::ser::Error>) -> (r: Result<
    String,
    PDLError,
>)
    ensures
        match encoded {
            Ok(text) => r == Ok::<String, PDLError>(text),
            Err(_) => r == Err::<String, PDLError>(PDLError::SerializationError),
        },
{
    match encoded {
        Ok(text) => Ok(text),
        Err(_) => Err(PDLError::SerializationError),
    }
}

/// Encodes the fields as one query string.
pub fn encode_query(fields: &Vec<Field>) -> (r: Result<String, PDLError>)
    ensures
        serialized(query_string(fields.deep_view()), r),
{
    let pairs = to_query_pairs(fields);
    query_outcome(form_encode(&pairs))
}

} // verus!
