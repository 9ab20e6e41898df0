//! JSON bodies: objects and arrays written as text, strings quoted by
//! `serde_json`.

use crate::client::{serialized, PDLError};
use crate::wire::{
    join, join_strings, scalar_string, scalar_text, Field, Wire, WireFields, WireValue,
};
use vstd::prelude::*;

verus! {

/// `serde_json::Error`, taken as it comes: nothing is claimed of what it
/// holds.
#[verifier::external_type_specification]
#[verifier::external_body]
pub struct ExJsonError(serde_json::Error);

/// What `serde_json::to_string` makes of a string: the JSON string literal,
/// quotes included, or `None` where it reports an error.
pub uninterp spec fn json_quoted(text: Seq<char>) -> Option<Seq<char>>;

/// Calls `serde_json::to_string` on a string. The contract claims only that
/// the outcome is the one named by [`json_quoted`] for this text.
#[verifier::external_body]
fn json_quote(text: &str) -> (r: Result<String, serde_json::Error>)
    ensures
        match r {
            Ok(quoted) => json_quoted(text@) == Some(quoted@),
            Err(_) => json_quoted(text@) is None,
        },
{
    serde_json::to_string(text)
}

/// The outcome of quoting, as this library reports it.
pub fn quote_outcome(quoted: Result<String, serde_json::Error>) -> (r: Result<String, PDLError>)
    ensures
        match quoted {
            Ok(text) => r == Ok::<String, PDLError>(text),
            Err(_) => r == Err::<String, PDLError>(PDLError::SerializationError),
        },
{
    match quoted {
        Ok(text) => Ok(text),
        Err(_) => Err(PDLError::SerializationError),
    }
}

/// Writes a string as a JSON string literal.
pub fn quote(text: &str) -> (r: Result<String, PDLError>)
    ensures
        serialized(json_quoted(text@), r),
{
    quote_outcome(json_quote(text))
}

/// The parts, where every one of them exists.
pub open spec fn all_some(parts: Seq<Option<Seq<char>>>) -> Option<Seq<Seq<char>>> {
    if forall|i: int| 0 <= i < parts.len() ==> (#[trigger] parts[i]) is Some {
        Some(Seq::new(parts.len(), |i: int| parts[i]->0))
    } else {
        None
    }
}

/// Members between braces, separated by commas.
pub open spec fn braces(members: Seq<Seq<char>>) -> Seq<char> {
    "{"@ + join(members, ","@) + "}"@
}

/// Items between brackets, separated by commas.
pub open spec fn brackets(items: Seq<Seq<char>>) -> Seq<char> {
    "["@ + join(items, ","@) + "]"@
}

/// One member of an object: the quoted key, a colon, the value's JSON text.
pub open spec fn json_member(key: Seq<char>, value: Seq<char>) -> Option<Seq<char>> {
    match json_quoted(key) {
        Some(quoted) => Some(quoted + ":"@ + value),
        None => None,
    }
}

/// The object whose members are the given keys with the given JSON texts, in
/// this order.
pub open spec fn json_object(members: Seq<(Seq<char>, Seq<char>)>) -> Option<Seq<char>> {
    match all_some(Seq::new(members.len(), |i: int| json_member(members[i].0, members[i].1))) {
        Some(texts) => Some(braces(texts)),
        None => None,
    }
}

/// A scalar as JSON: a string is quoted, a boolean or a number is written as
/// it is.
pub open spec fn json_scalar(value: Wire) -> Option<Seq<char>> {
    match value {
        Wire::Text(s) => json_quoted(s),
        _ => Some(scalar_text(value)),
    }
}

/// The fields as members, every value as JSON text.
pub open spec fn json_values(fields: WireFields) -> Option<Seq<(Seq<char>, Seq<char>)>> {
    match all_some(Seq::new(fields.len(), |i: int| json_scalar(fields[i].1))) {
        Some(texts) => Some(Seq::new(fields.len(), |i: int| (fields[i].0, texts[i]))),
        None => None,
    }
}

/// The flat object that carries the fields: one member for each, in order.
pub open spec fn fields_object(fields: WireFields) -> Option<Seq<char>> {
    match json_values(fields) {
        Some(members) => json_object(members),
        None => None,
    }
}

/// Groups laid side by side stay at one level: the members of the whole are
/// the members of the first group followed by those of the second, and there
/// are members for the whole exactly where there are for both groups.
pub proof fn lemma_json_values_flat(first: WireFields, second: WireFields)
    ensures
        json_values(first + second) == match (json_values(first), json_values(second)) {
            (Some(front), Some(back)) => Some(front + back),
            _ => None,
        },
{
    let whole = first + second;
    let texts = Seq::new(whole.len(), |i: int| json_scalar(whole[i].1));
    let front = Seq::new(first.len(), |i: int| json_scalar(first[i].1));
    let back = Seq::new(second.len(), |i: int| json_scalar(second[i].1));
    assert(texts =~= front + back);
    if all_some(front) is Some && all_some(back) is Some {
        assert forall|i: int| 0 <= i < texts.len() implies (#[trigger] texts[i]) is Some by {
            if i < front.len() {
                assert(front[i] is Some);
            } else {
                assert(back[i - front.len()] is Some);
            }
        }
        assert(json_values(whole)->0 =~= json_values(first)->0 + json_values(second)->0);
    } else if all_some(front) is None {
        let i = choose|i: int| 0 <= i < front.len() && !((#[trigger] front[i]) is Some);
        assert(texts[i] is None);
    } else {
        let i = choose|i: int| 0 <= i < back.len() && !((#[trigger] back[i]) is Some);
        assert(texts[i + front.len()] is None);
    }
}

/// Writes members between braces.
pub fn braces_string(members: &Vec<String>) -> (r: String)
    ensures
        r@ == braces(members.deep_view()),
{
    let mut out = String::from_str("{");
    let inner = join_strings(members, ",");
    out.append(inner.as_str());
    out.append("}");
    out
}

/// Writes items between brackets.
pub fn brackets_string(items: &Vec<String>) -> (r: String)
    ensures
        r@ == brackets(items.deep_view()),
{
    let mut out = String::from_str("[");
    let inner = join_strings(items, ",");
    out.append(inner.as_str());
    out.append("]");
    out
}

/// Writes an object from keys and the JSON texts of their values.
pub fn object_string(members: &Vec<(String, String)>) -> (r: Result<String, PDLError>)
    ensures
        serialized(json_object(members.deep_view()), r),
{
    let ghost wanted = Seq::new(
        members.deep_view().len(),
        |i: int| json_member(members.deep_view()[i].0, members.deep_view()[i].1),
    );
    let mut texts: Vec<String> = Vec::new();
    let mut i: usize = 0;
    while i < members.len()
        invariant
            i <= members.len(),
            texts.len() == i,
            wanted == Seq::new(
                members.deep_view().len(),
                |i: int| json_member(members.deep_view()[i].0, members.deep_view()[i].1),
            ),
            forall|k: int|
                #![trigger wanted[k]]
                #![trigger texts[k]]
                0 <= k < i ==> wanted[k] == Some(texts[k]@),
        decreases members.len() - i,
    {
        match quote(members[i].0.as_str()) {
            Ok(quoted) => {
                let mut text = quoted;
                text.append(":");
                text.append(members[i].1.as_str());
                texts.push(text);
            },
            Err(e) => {
                assert(wanted[i as int] is None);
                return Err(e);
            },
        }
        i += 1;
    }
    assert(texts.deep_view() =~= all_some(wanted)->0);
    Ok(braces_string(&texts))
}

/// Writes a scalar as JSON text.
pub fn scalar_json(value: &WireValue) -> (r: Result<String, PDLError>)
    ensures
        serialized(json_scalar(value.deep_view()), r),
{
    match value {
        WireValue::Text(s) => quote(s.as_str()),
        _ => Ok(scalar_string(value)),
    }
}

/// Writes every value as JSON text and keeps keys and order.
pub fn to_json_values(fields: &Vec<Field>) -> (r: Result<Vec<(String, String)>, PDLError>)
    ensures
        match r {
            Ok(members) => json_values(fields.deep_view()) == Some(members.deep_view()),
            Err(e) => e == PDLError::SerializationError && json_values(fields.deep_view())
                is None,
        },
{
    let ghost wanted = Seq::new(
        fields.deep_view().len(),
        |i: int| json_scalar(fields.deep_view()[i].1),
    );
    let mut out: Vec<(String, String)> = Vec::new();
    let mut i: usize = 0;
    while i < fields.len()
        invariant
            i <= fields.len(),
            out.len() == i,
            wanted == Seq::new(
                fields.deep_view().len(),
                |i: int| json_scalar(fields.deep_view()[i].1),
            ),
            forall|k: int|
                #![trigger wanted[k]]
                #![trigger out[k]]
                0 <= k < i ==> out[k].0@ == fields[k].0@ && wanted[k] == Some(out[k].1@),
        decreases fields.len() - i,
    {
        match scalar_json(&fields[i].1) {
            Ok(text) => {
                out.push((fields[i].0.clone(), text));
            },
            Err(e) => {
                assert(wanted[i as int] is None);
                return Err(e);
            },
        }
        i += 1;
    }
    assert(out.deep_view() =~= json_values(fields.deep_view())->0);
    Ok(out)
}

/// Writes the fields as one flat JSON object.
pub fn fields_object_string(fields: &Vec<Field>) -> (r: Result<String, PDLError>)
    ensures
        serialized(fields_object(fields.deep_view()), r),
{
    match to_json_values(fields) {
        Ok(members) => object_string(&members),
        Err(e) => Err(e),
    }
}

} // verus!
