//! JSON documents, held as `serde_json::Value` and described by a model.
//!
//! The library never looks inside a `serde_json::Value` itself. It builds,
//! reads, prints and parses one through the functions at the end of this
//! file, each of which makes one call into `serde_json`; what those calls do
//! is stated here over [`Json`] and is taken on trust. Everything else in
//! the library is proved from these statements.
//!
//! `serde_json` is built with its `preserve_order` feature, so the members of
//! an object keep the order in which they were inserted or read.

use vstd::prelude::*;

verus! {

/// A JSON number, in the three forms in which `serde_json` holds one.
pub enum JsonNumber {
    /// A whole number that is not negative.
    Unsigned(u64),
    /// A whole number below zero.
    Negative(i64),
    /// Any other number, by the 64 bits of its binary form.
    Binary(u64),
}

/// What a JSON document holds.
pub enum Json {
    Null,
    Bool(bool),
    Number(JsonNumber),
    Text(Seq<char>),
    Array(Seq<Json>),
    /// The members in their order. No key occurs twice.
    Object(Seq<(Seq<char>, Json)>),
}

/// The value that `members` holds under `key`, if any.
pub open spec fn lookup(members: Seq<(Seq<char>, Json)>, key: Seq<char>) -> Option<Json>
    decreases members.len(),
{
    if members.len() == 0 {
        None
    } else if members.last().0 == key {
        Some(members.last().1)
    } else {
        lookup(members.drop_last(), key)
    }
}

/// Whether one of `members` has the key `key`.
pub open spec fn has_key(members: Seq<(Seq<char>, Json)>, key: Seq<char>) -> bool {
    exists|i: int| 0 <= i < members.len() && (#[trigger] members[i]).0 == key
}

impl Json {
    /// The member `key` of an object; `None` where the document is no object
    /// or the object has no such member.
    pub open spec fn member(self, key: Seq<char>) -> Option<Json> {
        match self {
            Json::Object(members) => lookup(members, key),
            _ => None,
        }
    }
}

/// A member added at the end is found under its key, and hides nothing else.
pub proof fn lemma_lookup_push(
    members: Seq<(Seq<char>, Json)>,
    key: Seq<char>,
    value: Json,
    wanted: Seq<char>,
)
    ensures
        lookup(members.push((key, value)), wanted) == if key == wanted {
            Some(value)
        } else {
            lookup(members, wanted)
        },
{
    assert(members.push((key, value)).drop_last() =~= members);
}

/// `lookup` finds a value exactly under the keys that occur.
pub proof fn lemma_lookup_has_key(members: Seq<(Seq<char>, Json)>, key: Seq<char>)
    ensures
        lookup(members, key) is Some <==> has_key(members, key),
    decreases members.len(),
{
    if members.len() > 0 {
        let front = members.drop_last();
        lemma_lookup_has_key(front, key);
        if members.last().0 == key {
            assert(members[members.len() - 1].0 == key);
        } else if has_key(front, key) {
            let i = choose|i: int| 0 <= i < front.len() && (#[trigger] front[i]).0 == key;
            assert(members[i].0 == key);
        } else if has_key(members, key) {
            let i = choose|i: int| 0 <= i < members.len() && (#[trigger] members[i]).0 == key;
            assert(front[i].0 == key);
        }
    }
}

/// `serde_json::Value`, of which nothing is known but what the functions
/// below say.
#[verifier::external_type_specification]
#[verifier::external_body]
pub struct ExValue(serde_json::Value);

/// The document that a `serde_json::Value` holds.
pub uninterp spec fn json_model(value: serde_json::Value) -> Json;

/// The text that `serde_json` writes for a document, in its compact form.
pub uninterp spec fn json_text(document: Json) -> Seq<char>;

/// The document that `serde_json` reads from `bytes`, or the message of its
/// error where it refuses them.
pub uninterp spec fn json_parse(bytes: Seq<u8>) -> Result<Json, Seq<char>>;

/// `serde_json::Map::new`, wrapped as a value: an object without members.
#[verifier::external_body]
pub(crate) fn empty_object() -> (value: serde_json::Value)
    ensures
        json_model(value) == Json::Object(Seq::empty()),
{
    serde_json::Value::Object(serde_json::Map::new())
}

/// `serde_json::Value::from` on a `&str`: a JSON string of the same
/// characters.
#[verifier::external_body]
pub(crate) fn text_value(text: &str) -> (value: serde_json::Value)
    ensures
        json_model(value) == Json::Text(text@),
{
    serde_json::Value::from(text)
}

/// `serde_json::Value::from` on a `bool`: the value `true` or `false`.
#[verifier::external_body]
pub(crate) fn flag_value(flag: bool) -> (value: serde_json::Value)
    ensures
        json_model(value) == Json::Bool(flag),
{
    serde_json::Value::from(flag)
}

/// `serde_json::Value::from` on a `u64`: that whole number.
#[verifier::external_body]
pub(crate) fn count_value(count: u64) -> (value: serde_json::Value)
    ensures
        json_model(value) == Json::Number(JsonNumber::Unsigned(count)),
{
    serde_json::Value::from(count)
}

/// `serde_json::Map::insert` on the map of an object, with a key that the
/// object does not have yet: the new member comes last, and the others stay
/// as they are.
#[verifier::external_body]
pub(crate) fn put(object: &mut serde_json::Value, key: &str, value: serde_json::Value)
    requires
        json_model(*old(object)) is Object,
        !has_key(json_model(*old(object))->Object_0, key@),
    ensures
        json_model(*final(object)) == Json::Object(
            json_model(*old(object))->Object_0.push((key@, json_model(value))),
        ),
{
    if let serde_json::Value::Object(members) = object {
        members.insert(key.to_owned(), value);
    }
}

/// `serde_json::Value::get` with a string: the member of that name, where
/// the value is an object that has one.
#[verifier::external_body]
pub(crate) fn member<'a>(value: &'a serde_json::Value, key: &str) -> (found: Option<
    &'a serde_json::Value,
>)
    ensures
        match found {
            Some(inner) => json_model(*value).member(key@) == Some(json_model(*inner)),
            None => json_model(*value).member(key@) is None,
        },
{
    value.get(key)
}

/// `serde_json::Value::as_str`: the characters of a JSON string, and `None`
/// for every other value.
#[verifier::external_body]
pub(crate) fn text_of<'a>(value: &'a serde_json::Value) -> (found: Option<&'a str>)
    ensures
        match found {
            Some(text) => json_model(*value) == Json::Text(text@),
            None => !(json_model(*value) is Text),
        },
{
    value.as_str()
}

/// `to_string` on a `serde_json::Value`, which prints through its `Display`:
/// the compact JSON text of the document.
#[verifier::external_body]
pub(crate) fn to_text(value: &serde_json::Value) -> (text: String)
    ensures
        text@ == json_text(json_model(*value)),
{
    value.to_string()
}

/// `serde_json::from_slice` into a `serde_json::Value`: the document that
/// the bytes spell, or, where they spell none, the error of `serde_json` as
/// the message that it prints.
#[verifier::external_body]
pub(crate) fn parse(bytes: &[u8]) -> (parsed: Result<serde_json::Value, String>)
    ensures
        match parsed {
            Ok(value) => json_parse(bytes@) == Ok::<Json, Seq<char>>(json_model(value)),
            Err(message) => json_parse(bytes@) == Err::<Json, Seq<char>>(message@),
        },
{
    serde_json::from_slice(bytes).map_err(|refusal: serde_json::Error| refusal.to_string())
}

} // verus!
