//! JSON documents, as `serde_json` reads and writes them.
//!
//! A parsed document is a `serde_json::Value`. The verifier does not look
//! inside one, so this module says what a value holds with a mathematical
//! model, [`JsonDoc`], and states of each call into `serde_json` what the call
//! does to that model. Those statements are believed, not proved: the two
//! declared types, the three functions without a body and the functions
//! marked `external_body` are the whole of what this crate trusts.
//!
//! `serde_json` is built with its `preserve_order` feature: an object keeps
//! its members in the order of insertion, and is written in that order.

use crate::text::texts_of;
use serde_json::Value;
use vstd::prelude::*;

verus! {

/// What a JSON document holds.
pub enum JsonDoc {
    Null,
    Bool(bool),
    /// A number, kept as the characters that `serde_json` writes for it.
    Number(Seq<char>),
    Text(Seq<char>),
    List(Seq<JsonDoc>),
    /// An object: its members in the order in which they were inserted. A
    /// value never holds two members with one key.
    Dict(Seq<(Seq<char>, JsonDoc)>),
}

/// No two members have the same key.
pub open spec fn distinct_keys(members: Seq<(Seq<char>, JsonDoc)>) -> bool {
    forall|i: int, j: int|
        0 <= i < j < members.len() ==> (#[trigger] members[i]).0 != (#[trigger] members[j]).0
}

/// The value of the first member of `members` whose key is `key`.
pub open spec fn lookup(members: Seq<(Seq<char>, JsonDoc)>, key: Seq<char>) -> Option<JsonDoc>
    decreases members.len(),
{
    if members.len() == 0 {
        None
    } else if members[0].0 == key {
        Some(members[0].1)
    } else {
        lookup(members.drop_first(), key)
    }
}

/// The member `key` of `doc`: `None` where `doc` is no object or has no such
/// member.
pub open spec fn field(doc: JsonDoc, key: Seq<char>) -> Option<JsonDoc> {
    match doc {
        JsonDoc::Dict(members) => lookup(members, key),
        _ => None,
    }
}

/// The list whose items are the texts `items`.
pub open spec fn text_list(items: Seq<Seq<char>>) -> JsonDoc {
    JsonDoc::List(items.map_values(|s: Seq<char>| JsonDoc::Text(s)))
}

/// `doc` is a text, or a list of texts.
pub open spec fn is_textual(doc: JsonDoc) -> bool {
    match doc {
        JsonDoc::Text(_) => true,
        JsonDoc::List(items) => forall|i: int| 0 <= i < items.len() ==> #[trigger] items[i] is Text,
        _ => false,
    }
}

/// `doc` is an object whose keys differ and whose members are texts or lists
/// of texts. Every document that this library writes is of this shape.
pub open spec fn is_flat_object(doc: JsonDoc) -> bool {
    match doc {
        JsonDoc::Dict(members) => distinct_keys(members) && forall|i: int|
            0 <= i < members.len() ==> is_textual((#[trigger] members[i]).1),
        _ => false,
    }
}

/// A pair of members maps each key to its own value, and no other key to
/// anything.
pub proof fn lemma_lookup_pair(
    k1: Seq<char>,
    v1: JsonDoc,
    k2: Seq<char>,
    v2: JsonDoc,
    key: Seq<char>,
)
    ensures
        lookup(seq![(k1, v1), (k2, v2)], key) == if key == k1 {
            Some(v1)
        } else if key == k2 {
            Some(v2)
        } else {
            None::<JsonDoc>
        },
{
    let members = seq![(k1, v1), (k2, v2)];
    let rest = members.drop_first();
    assert(rest =~= seq![(k2, v2)]);
    assert(rest.drop_first() =~= Seq::<(Seq<char>, JsonDoc)>::empty());
    reveal_with_fuel(lookup, 3);
}

/// `serde_json::Value`, opaque to the verifier.
#[verifier::external_type_specification]
#[verifier::external_body]
pub struct ExValue(serde_json::Value);

/// `serde_json::Error`, opaque to the verifier.
#[verifier::external_type_specification]
#[verifier::external_body]
pub struct ExError(serde_json::Error);

/// What the value `v` holds: its variant, and what the variant carries.
pub uninterp spec fn value_doc(v: Value) -> JsonDoc;

/// What `serde_json::from_str` makes of `text`: the document, or `None` where
/// the text is not one JSON document. The parser reads nothing but the text,
/// so the same text always gives the same document.
pub uninterp spec fn json_parsed(text: Seq<char>) -> Option<JsonDoc>;

/// The text that `serde_json::to_string` writes for a value that holds `doc`:
/// compact JSON, the members of an object in their order.
pub uninterp spec fn json_printed(doc: JsonDoc) -> Seq<char>;

/// The documents held by `items`, in order.
pub open spec fn docs_of(items: Seq<Value>) -> Seq<JsonDoc> {
    items.map_values(|v: Value| value_doc(v))
}

/// The members held by `entries`, in order.
pub open spec fn members_of(entries: Seq<(String, Value)>) -> Seq<(Seq<char>, JsonDoc)> {
    entries.map_values(|e: (String, Value)| (e.0@, value_doc(e.1)))
}

/// Parses `text` as one JSON document.
///
/// Calls `serde_json::from_str` for a `Value`. What it makes of a text is
/// named, not described: the call succeeds exactly where `json_parsed` gives a
/// document, and the value then holds that document.
#[verifier::external_body]
pub(crate) fn parse(text: &str) -> (r: Result<Value, serde_json::Error>)
    ensures
        match r {
            Ok(v) => json_parsed(text@) == Some(value_doc(v)),
            Err(_) => json_parsed(text@).is_none(),
        },
{
    serde_json::from_str::<Value>(text)
}

/// Writes the document that `v` holds as compact JSON text.
///
/// Calls `serde_json::to_string`. It reports an error only where a `Serialize`
/// impl gives one or a map has a key that is no string, and a `Value` does
/// neither. The text is named, not described. One fact is claimed beside the
/// name: the text of a flat object of texts parses back to the same object,
/// members in the same order. The writer escapes the quote, the backslash and
/// the control characters of a text and writes every other character as it
/// is; the reader undoes exactly that, and reads the members of an object
/// into the map in the order in which they stand.
#[verifier::external_body]
pub(crate) fn print(v: &Value) -> (text: String)
    ensures
        text@ == json_printed(value_doc(*v)),
        is_flat_object(value_doc(*v)) ==> json_parsed(text@) == Some(value_doc(*v)),
{
    serde_json::to_string(v).unwrap_or_default()
}

/// Looks up the member `key` of `v`.
///
/// Calls `Value::get` with a string index: the member's value where `v` is an
/// object that has the key, `None` where it has not or `v` is no object.
#[verifier::external_body]
pub(crate) fn member<'a>(v: &'a Value, key: &str) -> (r: Option<&'a Value>)
    ensures
        match r {
            Some(m) => field(value_doc(*v), key@) == Some(value_doc(*m)),
            None => field(value_doc(*v), key@).is_none(),
        },
{
    v.get(key)
}

/// The text of `v`, where `v` is a JSON string. Calls `Value::as_str`.
#[verifier::external_body]
pub(crate) fn as_text<'a>(v: &'a Value) -> (r: Option<&'a str>)
    ensures
        match r {
            Some(s) => value_doc(*v) == JsonDoc::Text(s@),
            None => !(value_doc(*v) is Text),
        },
{
    v.as_str()
}

/// The items of `v`, where `v` is a JSON array. Calls `Value::as_array`.
#[verifier::external_body]
pub(crate) fn as_list<'a>(v: &'a Value) -> (r: Option<&'a Vec<Value>>)
    ensures
        match r {
            Some(items) => value_doc(*v) == JsonDoc::List(docs_of(items@)),
            None => !(value_doc(*v) is List),
        },
{
    v.as_array()
}

/// Tells whether `v` is the JSON `null`. Calls `Value::is_null`.
#[verifier::external_body]
pub(crate) fn is_null(v: &Value) -> (r: bool)
    ensures
        r == (value_doc(*v) is Null),
{
    v.is_null()
}

/// The JSON string that holds `s`. Calls `Value::from` on a `String`.
#[verifier::external_body]
pub(crate) fn text_value(s: String) -> (v: Value)
    ensures
        value_doc(v) == JsonDoc::Text(s@),
{
    Value::from(s)
}

/// The JSON array of the strings `items`, in order. Calls `Value::from` on a
/// `Vec<String>`.
#[verifier::external_body]
pub(crate) fn list_value(items: Vec<String>) -> (v: Value)
    ensures
        value_doc(v) == text_list(texts_of(items@)),
{
    Value::from(items)
}

/// The JSON object with the members `entries`, in order.
///
/// Calls `Value::from_iter` on the pairs. The claim is made only where no key
/// comes twice: a later pair with an earlier key replaces that member's value.
#[verifier::external_body]
pub(crate) fn object_value(entries: Vec<(String, Value)>) -> (v: Value)
    ensures
        distinct_keys(members_of(entries@)) ==> value_doc(v) == JsonDoc::Dict(
            members_of(entries@),
        ),
{
    Value::from_iter(entries)
}

} // verus!
