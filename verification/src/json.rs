//! A trusted view of parsed JSON.
//!
//! JSON parsing itself is delegated to `serde_json`; this module declares
//! the parsed value type, gives its contents a specification-level model,
//! and wraps the few accessors the health endpoint's validation reads.

use vstd::prelude::*;

verus! {

/// What a parsed JSON value holds, as far as this library reads it: the
/// health endpoint only ever looks at nulls, strings and objects, so every
/// other kind of value is collapsed into [`JsonModel::Other`].
pub enum JsonModel {
    Null,
    Text(Seq<char>),
    Object(Map<Seq<char>, JsonModel>),
    Other,
}

#[verifier::external_type_specification]
#[verifier::external_body]
pub struct ExValue(serde_json::Value);

/// The model of a parsed JSON value's contents.
pub uninterp spec fn json_model(v: serde_json::Value) -> JsonModel;

/// What `serde_json::from_str::<serde_json::Value>` makes of a string:
/// `None` when the parser rejects it (it accepts the valid JSON documents,
/// up to its nesting limit), otherwise the model of the value it parses
/// to.
pub uninterp spec fn json_of(s: Seq<char>) -> Option<JsonModel>;

/// Relies on `serde_json::from_str::<serde_json::Value>`: a function of
/// the string alone, accepting and producing exactly what [`json_of`]
/// names; on failure the error's display text is returned for
/// diagnostics.
#[verifier::external_body]
pub(crate) fn json_parse(s: &str) -> (r: Result<serde_json::Value, String>)
    ensures
        (r is Ok) == (json_of(s@) is Some),
        r matches Ok(v) ==> Some(json_model(v)) == json_of(s@),
{
    match serde_json::from_str::<serde_json::Value>(s) {
        Ok(v) => Ok(v),
        Err(e) => Err(e.to_string()),
    }
}

/// Relies on `serde_json::Value::get` with a string index: on an object it
/// looks the key up, on every other value it returns `None`.
#[verifier::external_body]
pub(crate) fn json_get<'a>(v: &'a serde_json::Value, key: &str) -> (r: Option<
    &'a serde_json::Value,
>)
    ensures
        json_model(*v) matches JsonModel::Object(m) ==> ((r is Some) == m.dom().contains(key@)
            && (r matches Some(f) ==> m.dom().contains(key@) && json_model(*f) == m[key@])),
        !(json_model(*v) is Object) ==> r is None,
{
    v.get(key)
}

/// Relies on `serde_json::Value::as_str`: returns the text of a JSON
/// string and `None` for every other value.
#[verifier::external_body]
pub(crate) fn json_as_text(v: &serde_json::Value) -> (r: Option<String>)
    ensures
        (r is Some) == (json_model(*v) is Text),
        r matches Some(s) ==> json_model(*v) == JsonModel::Text(s@),
{
    v.as_str().map(str::to_owned)
}

/// Relies on `serde_json::Value::is_null`.
#[verifier::external_body]
pub(crate) fn json_is_null(v: &serde_json::Value) -> (r: bool)
    ensures
        r == (json_model(*v) is Null),
{
    v.is_null()
}

/// Relies on `serde_json::Value::as_object` and `serde_json::Map::iter`:
/// on an object it hands out every entry, each key once, in the map's
/// iteration order; on every other value it returns `None`.
#[verifier::external_body]
pub(crate) fn json_obj_entries(v: &serde_json::Value) -> (r: Option<
    Vec<(String, serde_json::Value)>,
>)
    ensures
        (r is Some) == (json_model(*v) is Object),
        r matches Some(es) ==> (json_model(*v) matches JsonModel::Object(m) && (forall|
            i: int,
            j: int,
        |
            0 <= i < j < es@.len() ==> es@[i].0@ != es@[j].0@) && (forall|i: int|
            0 <= i < es@.len() ==> #[trigger] m.dom().contains(es@[i].0@) && json_model(es@[i].1)
                == m[es@[i].0@]) && (forall|k: Seq<char>|
            #[trigger] m.dom().contains(k) ==> exists|i: int|
                0 <= i < es@.len() && es@[i].0@ == k)),
{
    v.as_object().map(|m| m.iter().map(|(k, val)| (k.clone(), val.clone())).collect())
}

} // verus!
