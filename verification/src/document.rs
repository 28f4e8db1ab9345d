//! The JSON documents that manifests are written in. Parsing and the tree
//! itself are the `json` crate's; this module states what the library relies
//! on: a model of a parsed value and what each accessor returns of it.

use vstd::prelude::*;
use json::JsonValue;

verus! {

/// `json::JsonValue`, a parsed value; nothing of its inside is visible here.
#[verifier::external_type_specification]
#[verifier::external_body]
pub struct ExJsonValue(json::JsonValue);

/// `json::Error`, what the parser reports.
#[verifier::external_type_specification]
#[verifier::external_body]
pub struct ExJsonError(json::Error);

/// What a parsed JSON value holds.
pub enum JsonTree {
    /// `null`.
    Null,
    /// A string.
    Text(Seq<char>),
    /// A number, with its value as an unsigned 64-bit integer where it has
    /// one: where it is not negative and is held without a decimal exponent.
    Number(Option<u64>),
    /// `true` or `false`.
    Flag(bool),
    /// An object: its keys, each once, with their values, in the order in
    /// which the keys first appeared.
    Object(Seq<(Seq<char>, JsonTree)>),
    /// An array.
    Array(Seq<JsonTree>),
}

/// The value under `key` in a list of entries: that of the first entry with
/// this key.
pub open spec fn lookup(entries: Seq<(Seq<char>, JsonTree)>, key: Seq<char>) -> Option<JsonTree>
    decreases entries.len(),
{
    if entries.len() == 0 {
        None
    } else if entries[0].0 == key {
        Some(entries[0].1)
    } else {
        lookup(entries.drop_first(), key)
    }
}

impl JsonTree {
    /// The entries of an object; nothing for any other value.
    pub open spec fn entries(self) -> Seq<(Seq<char>, JsonTree)> {
        match self {
            JsonTree::Object(entries) => entries,
            _ => Seq::empty(),
        }
    }

    /// The members of an array; nothing for any other value.
    pub open spec fn members(self) -> Seq<JsonTree> {
        match self {
            JsonTree::Array(members) => members,
            _ => Seq::empty(),
        }
    }

    /// Whether this is an object with an entry for `key`.
    pub open spec fn has_key(self, key: Seq<char>) -> bool {
        lookup(self.entries(), key) is Some
    }

    /// The value under `key`; `null` where this is no object or has no such
    /// entry.
    pub open spec fn get(self, key: Seq<char>) -> JsonTree {
        match lookup(self.entries(), key) {
            Some(value) => value,
            None => JsonTree::Null,
        }
    }

    /// The text of a string.
    pub open spec fn text(self) -> Option<Seq<char>> {
        match self {
            JsonTree::Text(text) => Some(text),
            _ => None,
        }
    }

    /// The value of a boolean.
    pub open spec fn flag(self) -> Option<bool> {
        match self {
            JsonTree::Flag(flag) => Some(flag),
            _ => None,
        }
    }

    /// The value of a number that is an unsigned 32-bit integer.
    pub open spec fn unsigned32(self) -> Option<u32> {
        match self {
            JsonTree::Number(Some(value)) if value <= u32::MAX => Some(value as u32),
            _ => None,
        }
    }
}

/// What a `JsonValue` holds.
pub uninterp spec fn json_tree(value: JsonValue) -> JsonTree;

/// What `json::parse` makes of a text: the document's tree, or `None` where
/// the text is rejected.
pub uninterp spec fn json_document(text: Seq<char>) -> Option<JsonTree>;

/// `json::parse`: the same text always parses to the same tree or is
/// always rejected.
pub assume_specification[ json::parse ](source: &str) -> (parsed: json::Result<JsonValue>)
    ensures
        match parsed {
            Ok(value) => json_document(source@) == Some(json_tree(value)),
            Err(_) => json_document(source@) is None,
        },
;

/// `JsonValue::has_key`: true for an object that has an entry under the key.
pub assume_specification[ JsonValue::has_key ](value: &JsonValue, key: &str) -> (found: bool)
    ensures
        found == json_tree(*value).has_key(key@),
;

/// `JsonValue::is_object`: true for an object only.
pub assume_specification[ JsonValue::is_object ](value: &JsonValue) -> (yes: bool)
    ensures
        yes == (json_tree(*value) is Object),
;

/// `JsonValue::as_str`: the text of a string, `None` for any other value.
pub assume_specification<'a>[ JsonValue::as_str ](value: &'a JsonValue) -> (text: Option<&'a str>)
    ensures
        match text {
            Some(t) => json_tree(*value).text() == Some(t@),
            None => json_tree(*value).text() is None,
        },
;

/// `JsonValue::as_bool`: the value of a boolean, `None` for any other value.
pub assume_specification[ JsonValue::as_bool ](value: &JsonValue) -> (flag: Option<bool>)
    ensures
        flag == json_tree(*value).flag(),
;

/// `JsonValue::as_u32`: the value of a number written as a non-negative
/// integer that fits 32 bits, `None` for any other value.
pub assume_specification[ JsonValue::as_u32 ](value: &JsonValue) -> (number: Option<u32>)
    ensures
        number == json_tree(*value).unsigned32(),
;

/// Indexing a `JsonValue` by a key: the value under the key, or a `null`
/// where the value is no object or has no such entry.
#[verifier::external_body]
pub(crate) fn json_get<'a>(value: &'a JsonValue, key: &str) -> (found: &'a JsonValue)
    ensures
        json_tree(*found) == json_tree(*value).get(key@),
{
    &value[key]
}

/// `JsonValue::entries`, collected: the keys and values of an object in
/// their order, nothing for any other value.
#[verifier::external_body]
pub(crate) fn json_entries<'a>(value: &'a JsonValue) -> (entries: Vec<(&'a str, &'a JsonValue)>)
    ensures
        entries@.len() == json_tree(*value).entries().len(),
        forall|i: int|
            0 <= i < entries@.len() ==> (#[trigger] entries@[i]).0@ == json_tree(
                *value,
            ).entries()[i].0 && json_tree(*entries@[i].1) == json_tree(*value).entries()[i].1,
{
    value.entries().collect()
}

/// `JsonValue::members`, collected: the members of an array in their order,
/// nothing for any other value.
#[verifier::external_body]
pub(crate) fn json_members<'a>(value: &'a JsonValue) -> (members: Vec<&'a JsonValue>)
    ensures
        members@.len() == json_tree(*value).members().len(),
        forall|i: int|
            0 <= i < members@.len() ==> json_tree(*#[trigger] members@[i]) == json_tree(
                *value,
            ).members()[i],
{
    value.members().collect()
}

/// The message of a `json::Error`, as its `Display` writes it.
#[verifier::external_body]
pub(crate) fn json_error_message(error: &json::Error) -> String {
    format!("{}", error)
}

} // verus!
