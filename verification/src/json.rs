//! JSON documents, as the `serde_json` crate parses, holds and writes them.
//!
//! The crate's `Value` is opaque here. What a value holds is told by
//! `json_view`; the functions below hand the crate's operations on, each with
//! a contract that says over that view what the crate's source shows.

use vstd::prelude::*;

verus! {

/// `serde_json::Value`, a JSON document. Nothing inside it is seen here.
#[verifier::external_type_specification]
#[verifier::external_body]
pub struct ExJsonValue(serde_json::Value);

/// `serde_json::Error`, why a text could not be read or a document not
/// written. It is only passed on.
#[verifier::external_type_specification]
#[verifier::external_body]
pub struct ExJsonError(serde_json::Error);

/// What a JSON document holds.
pub ghost enum Json {
    Null,
    Bool(bool),
    /// An integer.
    Number(int),
    /// A number that is not an integer, by its text.
    Decimal(Seq<char>),
    Str(Seq<char>),
    Array(Seq<Json>),
    /// An object, by its members. Their order is not part of the model.
    Object(Map<Seq<char>, Json>),
}

/// What the document `v` holds.
pub uninterp spec fn json_view(v: serde_json::Value) -> Json;

/// What the document holds that `serde_json::from_str` reads from `text`,
/// or `None` where it reports an error.
pub uninterp spec fn json_parse(text: Seq<char>) -> Option<Json>;

/// The text that `serde_json::to_string` writes for `v`, or `None` where it
/// reports an error.
pub uninterp spec fn json_text(v: serde_json::Value) -> Option<Seq<char>>;

/// The member `key` of `doc`, where `doc` is an object that has one.
pub open spec fn member(doc: Json, key: Seq<char>) -> Option<Json> {
    match doc {
        Json::Object(m) => if m.contains_key(key) {
            Some(m[key])
        } else {
            None
        },
        _ => None,
    }
}

/// The object `doc` with `value` as its member `key`.
pub open spec fn with_member(doc: Json, key: Seq<char>, value: Json) -> Json {
    match doc {
        Json::Object(m) => Json::Object(m.insert(key, value)),
        _ => doc,
    }
}

/// What each of `items` holds.
pub open spec fn json_views(items: Seq<serde_json::Value>) -> Seq<Json> {
    items.map_values(|v: serde_json::Value| json_view(v))
}

/// No key occurs twice among `entries`.
pub open spec fn distinct_keys(entries: Seq<(String, serde_json::Value)>) -> bool {
    forall|i: int, j: int|
        0 <= i < j < entries.len() ==> (#[trigger] entries[i]).0@ != (#[trigger] entries[j]).0@
}

/// The members that `entries` list.
pub open spec fn members_of(entries: Seq<(String, serde_json::Value)>) -> Map<Seq<char>, Json> {
    Map::new(
        |k: Seq<char>| exists|i: int| 0 <= i < entries.len() && (#[trigger] entries[i]).0@ == k,
        |k: Seq<char>|
            json_view(
                entries[choose|i: int| 0 <= i < entries.len() && (#[trigger] entries[i]).0@ == k].1,
            ),
    )
}

/// `serde_json::from_str` for a `Value`: the document that the text
/// writes, or the crate's error.
#[verifier::external_body]
pub(crate) fn parse_json(text: &str) -> (r: Result<serde_json::Value, serde_json::Error>)
    ensures
        match r {
            Ok(v) => json_parse(text@) == Some(json_view(v)),
            Err(_) => json_parse(text@) is None,
        },
{
    serde_json::from_str::<serde_json::Value>(text)
}

/// `serde_json::to_string` for a `Value`: the document's text, or the
/// crate's error.
#[verifier::external_body]
pub(crate) fn json_to_string(v: &serde_json::Value) -> (r: Result<String, serde_json::Error>)
    ensures
        match r {
            Ok(s) => json_text(*v) == Some(s@),
            Err(_) => json_text(*v) is None,
        },
{
    serde_json::to_string(v)
}

/// `Value::get` with a string index: the member `key` where the value is
/// an object that has it, and nothing else.
#[verifier::external_body]
pub(crate) fn json_get<'a>(v: &'a serde_json::Value, key: &str) -> (r: Option<
    &'a serde_json::Value,
>)
    ensures
        match r {
            Some(m) => member(json_view(*v), key@) == Some(json_view(*m)),
            None => member(json_view(*v), key@) is None,
        },
{
    v.get(key)
}

/// `Value::get_mut` with a string index: as `json_get`, and what is
/// written through the reference becomes the member.
#[verifier::external_body]
pub(crate) fn json_get_mut<'a>(v: &'a mut serde_json::Value, key: &str) -> (r: Option<
    &'a mut serde_json::Value,
>)
    ensures
        match r {
            Some(m) => member(json_view(*old(v)), key@) == Some(json_view(*m)) && json_view(
                *final(v),
            ) == with_member(json_view(*old(v)), key@, json_view(*final(m))),
            None => member(json_view(*old(v)), key@) is None && *final(v) == *old(v),
        },
{
    v.get_mut(key)
}

/// `Value::as_str`: the text where the value is a string.
#[verifier::external_body]
pub(crate) fn json_as_str<'a>(v: &'a serde_json::Value) -> (r: Option<&'a str>)
    ensures
        match r {
            Some(s) => json_view(*v) == Json::Str(s@),
            None => !(json_view(*v) is Str),
        },
{
    v.as_str()
}

/// `Value::as_array_mut`: the items where the value is an array; what the
/// vector holds in the end are the array's items.
#[verifier::external_body]
pub(crate) fn json_as_array_mut<'a>(v: &'a mut serde_json::Value) -> (r: Option<
    &'a mut Vec<serde_json::Value>,
>)
    ensures
        match r {
            Some(a) => json_view(*old(v)) == Json::Array(json_views(a@)) && json_view(*final(v))
                == Json::Array(json_views(final(a)@)),
            None => !(json_view(*old(v)) is Array) && *final(v) == *old(v),
        },
{
    v.as_array_mut()
}

/// `Value::from` for an unsigned integer: the number.
#[verifier::external_body]
pub(crate) fn json_from_usize(n: usize) -> (r: serde_json::Value)
    ensures
        json_view(r) == Json::Number(n as int),
{
    serde_json::Value::from(n)
}

/// `Value::from` for a `String`: the string.
#[verifier::external_body]
pub(crate) fn json_from_string(s: String) -> (r: serde_json::Value)
    ensures
        json_view(r) == Json::Str(s@),
{
    serde_json::Value::from(s)
}

/// Collecting pairs of key and value into a `Value`: the object with
/// these members. The keys have to differ from each other.
#[verifier::external_body]
pub(crate) fn json_object(entries: Vec<(String, serde_json::Value)>) -> (r: serde_json::Value)
    requires
        distinct_keys(entries@),
    ensures
        json_view(r) == Json::Object(members_of(entries@)),
{
    entries.into_iter().collect::<serde_json::Value>()
}

/// Each of `entries`, their keys being distinct, is a member of the object
/// they list.
pub proof fn lemma_members_of(entries: Seq<(String, serde_json::Value)>, i: int)
    requires
        distinct_keys(entries),
        0 <= i < entries.len(),
    ensures
        members_of(entries).contains_key(entries[i].0@),
        members_of(entries)[entries[i].0@] == json_view(entries[i].1),
{
    let k = entries[i].0@;
    let j = choose|j: int| 0 <= j < entries.len() && (#[trigger] entries[j]).0@ == k;
    assert(j == i) by {
        if j < i {
            assert(entries[j].0@ != entries[i].0@);
        } else if i < j {
            assert(entries[i].0@ != entries[j].0@);
        }
    }
}

/// The object with the two members given.
pub fn json_object2(k1: &str, v1: serde_json::Value, k2: &str, v2: serde_json::Value) -> (r:
    serde_json::Value)
    requires
        k1@ != k2@,
    ensures
        json_view(r) == Json::Object(map![k1@ => json_view(v1), k2@ => json_view(v2)]),
{
    let mut entries: Vec<(String, serde_json::Value)> = Vec::new();
    entries.push((k1.to_owned(), v1));
    entries.push((k2.to_owned(), v2));
    proof {
        lemma_members_of(entries@, 0);
        lemma_members_of(entries@, 1);
        assert(members_of(entries@) =~= map![k1@ => json_view(v1), k2@ => json_view(v2)]);
    }
    json_object(entries)
}

} // verus!
