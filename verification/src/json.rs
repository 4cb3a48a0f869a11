//! JSON documents, as the parser hands them out, and the lookup of a value by
//! its key path.

use vstd::prelude::*;
use crate::errors::{json_error_text, result_view, ApiError, ApiErrorView};

verus! {

/// The JSON parser's document type.
#[verifier::external_type_specification]
#[verifier::external_body]
pub struct ExDocument(serde_json::Value);

/// The members of a JSON object, by key; a value of any other kind has none.
pub uninterp spec fn object_members(value: serde_json::Value) -> Map<Seq<char>, serde_json::Value>;

/// What the JSON parser makes of a text: a document or an error.
pub uninterp spec fn parsed_json(text: Seq<char>) -> Result<serde_json::Value, serde_json::Error>;

/// `serde_json::from_str` at `serde_json::Value`: parsing depends on the text
/// alone, so what comes back is what `parsed_json` names for that text.
#[verifier::external_body]
fn parse_value(text: &str) -> (outcome: Result<serde_json::Value, serde_json::Error>)
    ensures
        outcome == parsed_json(text@),
{
    serde_json::from_str::<serde_json::Value>(text)
}

/// `serde_json::Value::get` with a string index: the member of an object
/// under that key, and nothing for a key that the object lacks or a value
/// that is no object.
#[verifier::external_body]
fn member<'a>(value: &'a serde_json::Value, key: &str) -> (found: Option<&'a serde_json::Value>)
    ensures
        found == if object_members(*value).contains_key(key@) {
            Some(&object_members(*value)[key@])
        } else {
            None
        },
{
    value.get(key)
}

/// `serde_json::Value`'s `Clone`: the copy is the same document.
pub assume_specification[ <serde_json::Value as Clone>::clone ](
    value: &serde_json::Value,
) -> (copy: serde_json::Value)
    ensures
        copy == *value,
;

/// The member stored under `key`, if the value is an object that has one.
pub open spec fn member_of(value: serde_json::Value, key: Seq<char>) -> Option<serde_json::Value> {
    if object_members(value).contains_key(key) {
        Some(object_members(value)[key])
    } else {
        None
    }
}

/// The value reached by following `path` key by key; the empty path reaches
/// the value itself.
pub open spec fn descend(value: serde_json::Value, path: Seq<Seq<char>>) -> Option<
    serde_json::Value,
>
    decreases path.len(),
{
    if path.len() == 0 {
        Some(value)
    } else {
        match member_of(value, path[0]) {
            Some(child) => descend(child, path.drop_first()),
            None => None,
        }
    }
}

/// The outcome of parsing a text, in the gateway's own terms.
pub open spec fn parse_outcome(text: Seq<char>) -> Result<serde_json::Value, ApiErrorView> {
    match parsed_json(text) {
        Ok(document) => Ok(document),
        Err(error) => Err(ApiErrorView::JsonError(json_error_text(error)@)),
    }
}

/// Parses a text as a JSON document.
pub fn parse(text: &str) -> (outcome: Result<serde_json::Value, ApiError>)
    ensures
        result_view(outcome) == parse_outcome(text@),
{
    match parse_value(text) {
        Ok(document) => Ok(document),
        Err(error) => Err(ApiError::from(error)),
    }
}

/// Follows `path` key by key from `document` and hands out a copy of the
/// value it reaches.
pub fn lookup(document: &serde_json::Value, path: &Vec<&str>) -> (found: Option<serde_json::Value>)
    ensures
        found == descend(*document, path@.map_values(|key: &str| key@)),
{
    let ghost keys = path@.map_values(|key: &str| key@);
    let mut current = document;
    let mut done: usize = 0;
    proof {
        assert(keys.skip(0) =~= keys);
    }
    while done < path.len()
        invariant
            done <= path.len(),
            keys == path@.map_values(|key: &str| key@),
            descend(*document, keys) == descend(*current, keys.skip(done as int)),
        decreases path.len() - done,
    {
        proof {
            assert(keys.skip(done as int)[0] == path[done as int]@);
            assert(keys.skip(done as int).drop_first() =~= keys.skip(done as int + 1));
        }
        match member(current, path[done]) {
            Some(child) => {
                current = child;
            },
            None => {
                return None;
            },
        }
        done = done + 1;
    }
    proof {
        assert(keys.skip(done as int).len() == 0);
    }
    Some(current.clone())
}

} // verus!
