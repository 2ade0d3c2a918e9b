//! The boundary with `serde_json`.
//!
//! JSON documents stay `serde_json::Value`s; this module says what such a value
//! holds, as a mathematical tree, and gives each `serde_json` operation the
//! library uses a contract over that tree. None of these contracts is proved:
//! each one restates what the `serde_json` source does. They hold of
//! `serde_json` as built here, with objects kept in a map ordered by member
//! name.

use serde_json::Value;
use vstd::prelude::*;

verus! {

#[verifier::external_type_specification]
#[verifier::external_body]
pub struct ExValue(serde_json::Value);

#[verifier::external_type_specification]
#[verifier::external_body]
pub struct ExNumber(serde_json::Number);

#[verifier::external_type_specification]
#[verifier::external_body]
pub struct ExError(serde_json::Error);

/// A JSON document as a mathematical tree.
///
/// An object is a finite map from member names to members: `serde_json` keeps
/// one member per name. Numbers are carried as `serde_json` holds them.
pub enum JsonModel {
    Null,
    Boolean(bool),
    Number(serde_json::Number),
    Text(Seq<char>),
    Array(Seq<JsonModel>),
    Object(Map<Seq<char>, JsonModel>),
}

impl JsonModel {
    /// The members of an object; meaningless for any other value.
    pub open spec fn members(self) -> Map<Seq<char>, JsonModel> {
        self->Object_0
    }

    /// Whether the value is an object with a member of that name.
    pub open spec fn has_member(self, name: Seq<char>) -> bool {
        self is Object && self.members().contains_key(name)
    }
}

/// The tree that a `serde_json::Value` holds.
pub uninterp spec fn json_model(v: Value) -> JsonModel;

/// What `serde_json::from_str` makes of a text: the document it denotes, or
/// nothing where `serde_json` rejects the text.
pub uninterp spec fn parsed_json(text: Seq<char>) -> Option<JsonModel>;

/// What `serde_json::to_string_pretty` prints for a document, or nothing where
/// it reports an error. The text is a function of the document because
/// `serde_json`, built without `preserve_order`, prints the members of an
/// object in the order of their names.
pub uninterp spec fn pretty_json(document: JsonModel) -> Option<Seq<char>>;

/// What `serde_json::from_str` makes of a text read as a list of entries, each
/// an array of a name, a tag, and a branch or `null`; nothing where
/// `serde_json` rejects the text as such a list.
pub uninterp spec fn parsed_entries(text: Seq<char>) -> Option<
    Seq<(Seq<char>, Seq<char>, Option<Seq<char>>)>,
>;

/// One of `names` is `name`.
pub open spec fn lists_name(names: Seq<String>, name: Seq<char>) -> bool {
    exists|i: int| 0 <= i < names.len() && (#[trigger] names[i])@ == name
}

/// `Value::is_object`: whether the value is a JSON object.
#[verifier::external_body]
pub(crate) fn is_object(v: &Value) -> (b: bool)
    ensures
        b == (json_model(*v) is Object),
{
    v.is_object()
}

/// `Map::insert` on the members of an object: the member `name` becomes
/// `member`, whether or not the object had one of that name; every other
/// member stays.
#[verifier::external_body]
pub(crate) fn insert_member(v: &mut Value, name: &str, member: Value)
    requires
        json_model(*old(v)) is Object,
    ensures
        json_model(*final(v)) == JsonModel::Object(
            json_model(*old(v)).members().insert(name@, json_model(member)),
        ),
{
    if let Value::Object(members) = v {
        members.insert(name.to_owned(), member);
    }
}

/// `Value::get` with a member name: the member of that name, where the value is
/// an object that has one; `None` for any other value.
#[verifier::external_body]
pub(crate) fn member<'a>(v: &'a Value, name: &str) -> (r: Option<&'a Value>)
    ensures
        match r {
            Some(m) => json_model(*v).has_member(name@) && json_model(*m) == json_model(
                *v,
            ).members()[name@],
            None => !json_model(*v).has_member(name@),
        },
{
    v.get(name)
}

/// `Map::keys` on the members of an object: the names of all members, and
/// nothing else.
#[verifier::external_body]
pub(crate) fn member_names(v: &Value) -> (names: Vec<String>)
    requires
        json_model(*v) is Object,
    ensures
        forall|name: Seq<char>| #[trigger]
            json_model(*v).members().contains_key(name) <==> lists_name(names@, name),
{
    match v {
        Value::Object(members) => members.keys().cloned().collect(),
        _ => Vec::new(),
    }
}

/// `Value::as_str`: the text of a JSON string, `None` for any other value.
#[verifier::external_body]
pub(crate) fn as_text(v: &Value) -> (r: Option<&str>)
    ensures
        match r {
            Some(text) => json_model(*v) == JsonModel::Text(text@),
            None => !(json_model(*v) is Text),
        },
{
    v.as_str()
}

/// `Value::as_bool`: the value of a JSON boolean, `None` for any other value.
#[verifier::external_body]
pub(crate) fn as_flag(v: &Value) -> (r: Option<bool>)
    ensures
        match r {
            Some(flag) => json_model(*v) == JsonModel::Boolean(flag),
            None => !(json_model(*v) is Boolean),
        },
{
    v.as_bool()
}

/// `Value::from` on a string slice: the JSON string with that text.
#[verifier::external_body]
pub(crate) fn text_value(text: &str) -> (v: Value)
    ensures
        json_model(v) == JsonModel::Text(text@),
{
    Value::from(text)
}

/// `Map::new`, as a value: the JSON object without members.
#[verifier::external_body]
pub(crate) fn empty_object() -> (v: Value)
    ensures
        json_model(v) == JsonModel::Object(Map::empty()),
{
    Value::Object(serde_json::Map::new())
}

/// `Value::clone`: a second value that holds the same document.
#[verifier::external_body]
pub(crate) fn duplicate(v: &Value) -> (copy: Value)
    ensures
        json_model(copy) == json_model(*v),
{
    v.clone()
}

/// `serde_json::from_str` into a `Value`: the document that the text denotes,
/// or the error with which `serde_json` rejects it.
#[verifier::external_body]
pub(crate) fn parse_value(text: &str) -> (r: Result<Value, serde_json::Error>)
    ensures
        match r {
            Ok(v) => parsed_json(text@) == Some(json_model(v)),
            Err(_) => parsed_json(text@) is None,
        },
{
    serde_json::from_str::<Value>(text)
}

/// `serde_json::to_string_pretty` on a `Value`: the document as indented text.
#[verifier::external_body]
pub(crate) fn render_pretty(v: &Value) -> (r: Result<String, serde_json::Error>)
    ensures
        match r {
            Ok(text) => pretty_json(json_model(*v)) == Some(text@),
            Err(_) => pretty_json(json_model(*v)) is None,
        },
{
    serde_json::to_string_pretty(v)
}

/// `serde_json::from_str` into a list of `(name, tag, branch)` entries.
#[verifier::external_body]
pub(crate) fn parse_entries(text: &str) -> (r: Result<
    Vec<(String, String, Option<String>)>,
    serde_json::Error,
>)
    ensures
        match r {
            Ok(entries) => parsed_entries(text@) == Some(entries.deep_view()),
            Err(_) => parsed_entries(text@) is None,
        },
{
    serde_json::from_str::<Vec<(String, String, Option<String>)>>(text)
}

/// The message of a `serde_json` error, as its `Display` prints it. Nothing is
/// claimed of the text.
#[verifier::external_body]
pub(crate) fn error_message(error: &serde_json::Error) -> (message: String) {
    error.to_string()
}

} // verus!
