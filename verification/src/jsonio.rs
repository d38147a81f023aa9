//! Trusted readings of JSON response bodies. Each reader parses the body
//! text anew, so its result depends on its arguments alone; the names below
//! stand for those results.

use vstd::prelude::*;

verus! {

/// The string under the given top-level key of the JSON document `body`,
/// when `body` parses as an object carrying a string there.
pub uninterp spec fn json_field_str(body: Seq<char>, key: Seq<char>) -> Option<Seq<char>>;

/// Relies on `serde_json::from_str`, `Value::get` and `Value::as_str`:
/// reads the string under one top-level key; the result depends on `body`
/// and `key` alone.
#[verifier::external_body]
pub fn json_string_field(body: &str, key: &str) -> (r: Option<String>)
    ensures
        match r {
            Some(s) => json_field_str(body@, key@) == Some(s@),
            None => json_field_str(body@, key@) is None,
        },
{
    let value: serde_json::Value = match serde_json::from_str(body) {
        Ok(v) => v,
        Err(_) => return None,
    };
    value.get(key).and_then(|f| f.as_str()).map(|s| s.to_string())
}

/// The string under `outer.inner` of the JSON document `body`.
pub uninterp spec fn json_field2_str(body: Seq<char>, outer: Seq<char>, inner: Seq<char>) -> Option<
    Seq<char>,
>;

/// Relies on `serde_json::from_str`, `Value::get` and `Value::as_str`:
/// reads the string one object level down; the result depends on the three
/// arguments alone.
#[verifier::external_body]
pub fn json_nested_string_field(body: &str, outer: &str, inner: &str) -> (r: Option<String>)
    ensures
        match r {
            Some(s) => json_field2_str(body@, outer@, inner@) == Some(s@),
            None => json_field2_str(body@, outer@, inner@) is None,
        },
{
    let value: serde_json::Value = match serde_json::from_str(body) {
        Ok(v) => v,
        Err(_) => return None,
    };
    value.get(outer).and_then(|o| o.get(inner)).and_then(|f| f.as_str()).map(|s| s.to_string())
}

/// The text at `choices[0].message.content` of the JSON document `body`.
pub uninterp spec fn chat_content_of(body: Seq<char>) -> Option<Seq<char>>;

/// Relies on `serde_json::from_str`, `Value::get` and `Value::as_str`:
/// reads the completion text where an OpenAI-style server puts it.
#[verifier::external_body]
pub fn json_chat_content(body: &str) -> (r: Option<String>)
    ensures
        match r {
            Some(s) => chat_content_of(body@) == Some(s@),
            None => chat_content_of(body@) is None,
        },
{
    let value: serde_json::Value = match serde_json::from_str(body) {
        Ok(v) => v,
        Err(_) => return None,
    };
    value
        .get("choices")
        .and_then(|c| c.get(0))
        .and_then(|c| c.get("message"))
        .and_then(|m| m.get("content"))
        .and_then(|c| c.as_str())
        .map(|s| s.to_string())
}

/// The `error` value of the JSON document `body`, rendered back to JSON
/// text.
pub uninterp spec fn error_text_of(body: Seq<char>) -> Option<Seq<char>>;

/// Relies on `serde_json::from_str`, `Value::get` and `Value`'s `Display`
/// rendering: reads the reported error so it can be relayed verbatim.
#[verifier::external_body]
pub fn json_error_field(body: &str) -> (r: Option<String>)
    ensures
        match r {
            Some(s) => error_text_of(body@) == Some(s@),
            None => error_text_of(body@) is None,
        },
{
    let value: serde_json::Value = match serde_json::from_str(body) {
        Ok(v) => v,
        Err(_) => return None,
    };
    value.get("error").map(|e| e.to_string())
}

/// The string at `hits[index].comment_text` of the JSON document `body`.
pub uninterp spec fn hit_comment_of(body: Seq<char>, index: int) -> Option<Seq<char>>;

/// Relies on `serde_json::from_str`, `Value::get` and `Value::as_str`:
/// reads one comment out of the search response.
#[verifier::external_body]
pub fn json_hit_comment(body: &str, index: usize) -> (r: Option<String>)
    ensures
        match r {
            Some(s) => hit_comment_of(body@, index as int) == Some(s@),
            None => hit_comment_of(body@, index as int) is None,
        },
{
    let value: serde_json::Value = match serde_json::from_str(body) {
        Ok(v) => v,
        Err(_) => return None,
    };
    value
        .get("hits")
        .and_then(|h| h.get(index))
        .and_then(|h| h.get("comment_text"))
        .and_then(|c| c.as_str())
        .map(|s| s.to_string())
}

} // verus!
