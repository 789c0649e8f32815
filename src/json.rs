//! JSON objects of scalar fields, written and read through serde_json.
use vstd::prelude::*;

verus! {

#[verifier::external_type_specification]
#[verifier::external_body]
#[verifier::reject_recursive_types(K)]
#[verifier::reject_recursive_types(V)]
pub struct ExJsonMap<K, V>(serde_json::Map<K, V>);

#[verifier::external_type_specification]
#[verifier::external_body]
pub struct ExJsonValue(serde_json::Value);

/// A JSON object with string keys, as serde_json holds it.
pub type JsonObject = serde_json::Map<String, serde_json::Value>;

/// A scalar JSON value as the codecs write and read it.
#[derive(Clone, Debug, PartialEq, Eq)]
pub enum JsonScalar {
    Text(String),
    Count(u64),
    Flag(bool),
}

/// What one member of a JSON object holds: a string, a non-negative integer that
/// fits in a `u64`, a boolean, or anything else (null, another number, an array,
/// an object).
pub enum JsonEntry {
    Text(Seq<char>),
    Count(u64),
    Flag(bool),
    Other,
}

impl JsonScalar {
    pub open spec fn view(&self) -> JsonEntry {
        match self {
            JsonScalar::Text(s) => JsonEntry::Text(s@),
            JsonScalar::Count(n) => JsonEntry::Count(*n),
            JsonScalar::Flag(b) => JsonEntry::Flag(*b),
        }
    }
}

/// The members of a JSON object, by key.
pub uninterp spec fn json_members(m: JsonObject) -> Map<Seq<char>, JsonEntry>;

/// The text that serde_json writes for an object with the given scalar members.
pub uninterp spec fn json_object_text(members: Map<Seq<char>, JsonEntry>) -> Seq<char>;

/// Whether every member of an object is a scalar that the codecs write.
pub open spec fn all_scalar(members: Map<Seq<char>, JsonEntry>) -> bool {
    &&& members.dom().finite()
    &&& forall|k: Seq<char>| #[trigger] members.contains_key(k) ==> !(members[k] is Other)
}

/// Relies on serde_json::Map::new: the new object has no members.
#[verifier::external_body]
pub(crate) fn json_object_new() -> (r: JsonObject)
    ensures
        json_members(r).dom() == Set::<Seq<char>>::empty(),
{
    serde_json::Map::new()
}

/// Relies on serde_json::Map::insert: afterwards `k` holds `v`, and the other
/// members are unchanged.
#[verifier::external_body]
pub(crate) fn json_object_insert(m: &mut JsonObject, k: String, v: JsonScalar)
    ensures
        json_members(*final(m)) == json_members(*old(m)).insert(k@, v@),
{
    let value = match v {
        JsonScalar::Text(s) => serde_json::Value::String(s),
        JsonScalar::Count(n) => serde_json::Value::from(n),
        JsonScalar::Flag(b) => serde_json::Value::Bool(b),
    };
    m.insert(k, value);
}

/// Relies on serde_json::Map::get: the member under `k`, when it is a scalar
/// that the codecs read.
#[verifier::external_body]
pub(crate) fn json_object_get(m: &JsonObject, k: &str) -> (r: Option<JsonScalar>)
    ensures
        r is Some <==> (json_members(*m).contains_key(k@) && !(json_members(*m)[k@] is Other)),
        r is Some ==> r->0@ == json_members(*m)[k@],
{
    match m.get(k) {
        Some(serde_json::Value::String(s)) => Some(JsonScalar::Text(s.clone())),
        Some(serde_json::Value::Number(n)) => n.as_u64().map(JsonScalar::Count),
        Some(serde_json::Value::Bool(b)) => Some(JsonScalar::Flag(*b)),
        _ => None,
    }
}

/// Relies on serde_json::to_string: an object with string keys always
/// serializes, and with serde_json's default map (ordered by key) the text is
/// determined by its members.
#[verifier::external_body]
pub(crate) fn json_object_to_string(m: &JsonObject) -> (r: String)
    ensures
        all_scalar(json_members(*m)) ==> r@ == json_object_text(json_members(*m)),
{
    serde_json::to_string(m).unwrap_or_default()
}

/// Relies on serde_json::from_str: text that serde_json wrote for an object
/// parses back to an object with the same members.
#[verifier::external_body]
pub(crate) fn json_object_from_str(s: &str) -> (r: Option<JsonObject>)
    ensures
        forall|members: Map<Seq<char>, JsonEntry>|
            #![trigger json_object_text(members)]
            all_scalar(members) && s@ == json_object_text(members) ==> r is Some
                && json_members(r->0) == members,
{
    serde_json::from_str::<JsonObject>(s).ok()
}

} // verus!
