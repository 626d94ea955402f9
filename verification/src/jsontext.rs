use vstd::prelude::*;

verus! {

/// Whether `s` parses as a JSON document. The answer depends on the
/// text alone; serde_json decides it.
pub uninterp spec fn json_doc_ok(s: Seq<char>) -> bool;

/// The string held at top-level key `key` of the JSON document `s`:
/// `None` when `s` does not parse, is not an object, lacks the key, or
/// holds a non-string there. Depends on the text alone.
pub uninterp spec fn json_str_field(s: Seq<char>, key: Seq<char>) -> Option<Seq<char>>;

/// The array held at top-level key `key` of the JSON document `s`,
/// each element reduced to its string content (`None` for a non-string
/// element): `None` when `s` does not parse, is not an object, lacks
/// the key, or holds a non-array there. Depends on the text alone.
pub uninterp spec fn json_array_field(s: Seq<char>, key: Seq<char>) -> Option<
    Seq<Option<Seq<char>>>,
>;

/// What `str::trim` leaves of `s`. Depends on the text alone.
pub uninterp spec fn trim_of(s: Seq<char>) -> Seq<char>;

/// Relies on serde_json::from_str::<Value>: whether the text is valid JSON.
#[verifier::external_body]
pub fn json_parses(s: &str) -> (r: bool)
    ensures
        r == json_doc_ok(s@),
{
    serde_json::from_str::<serde_json::Value>(s).is_ok()
}

/// Relies on serde_json::from_str::<Value>, Value::get and Value::as_str:
/// the string value at a top-level key, if the text parses and holds one.
#[verifier::external_body]
pub fn json_string_field(s: &str, key: &str) -> (r: Option<String>)
    ensures
        r.deep_view() == json_str_field(s@, key@),
{
    match serde_json::from_str::<serde_json::Value>(s) {
        Ok(v) => v.get(key).and_then(|f| f.as_str()).map(|t| t.to_string()),
        Err(_) => None,
    }
}

/// Relies on serde_json::from_str::<Value>, Value::get, Value::as_array and
/// Value::as_str: the array at a top-level key, each element as its string
/// content or `None`, if the text parses and holds an array there.
#[verifier::external_body]
pub fn json_string_items_field(s: &str, key: &str) -> (r: Option<Vec<Option<String>>>)
    ensures
        r.deep_view() == json_array_field(s@, key@),
{
    match serde_json::from_str::<serde_json::Value>(s) {
        Ok(v) => v.get(key).and_then(|f| f.as_array()).map(
            |arr| arr.iter().map(|e| e.as_str().map(|t| t.to_string())).collect(),
        ),
        Err(_) => None,
    }
}

/// Relies on str::trim: leading and trailing whitespace removed.
#[verifier::external_body]
pub fn trim_text(s: &str) -> (r: String)
    ensures
        r@ == trim_of(s@),
{
    s.trim().to_string()
}

} // verus!
