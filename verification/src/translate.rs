//! Translation of wire reply values into JSON values.

use vstd::prelude::*;
use crate::json::{
    double_json, entries_model, distinct_keys, insert_entry, items_model, lemma_entries_push,
    parse_as_json_or_string, text_or_json, Json, JsonNumber, JsonValue,
};
use crate::wire::{lossy_text, utf8_lossy, wire_items, wire_pairs, Wire, WireValue};

verus! {

/// The text of the status reply `OK`.
pub open spec fn okay_text() -> Seq<char> {
    "OK"@
}

/// The key under which a map entry goes whose key is no string.
pub open spec fn unknown_key() -> Seq<char> {
    "unknown_key"@
}

/// The key under which the description of an unsupported reply is shown.
pub open spec fn unsupported_key() -> Seq<char> {
    "unsupported"@
}

/// The key of a JSON object entry made from a map key of the wire: the text
/// of a string-like key, and a fixed stand-in for any other.
pub open spec fn key_text(key: Wire) -> Seq<char> {
    match key {
        Wire::BulkBytes(bytes) => utf8_lossy(bytes),
        Wire::SimpleString(text) => text,
        _ => unknown_key(),
    }
}

/// The translations of a sequence of replies, in order.
pub open spec fn translate_items(items: Seq<Wire>) -> Seq<Json>
    decreases items,
{
    Seq::new(
        items.len(),
        |i: int|
            if 0 <= i < items.len() {
                translate(items[i])
            } else {
                Json::Null
            },
    )
}

/// The JSON object fields of a sequence of map pairs: each pair is
/// inserted in turn under the text of its key, so of two pairs with the
/// same key text the later one stays.
pub open spec fn translate_pairs(pairs: Seq<(Wire, Wire)>) -> Map<Seq<char>, Json>
    decreases pairs,
{
    if pairs.len() == 0 {
        Map::empty()
    } else {
        translate_pairs(pairs.drop_last()).insert(
            key_text(pairs.last().0),
            translate(pairs.last().1),
        )
    }
}

/// The JSON value that a reply is shown as.
pub open spec fn translate(wire: Wire) -> Json
    decreases wire,
{
    match wire {
        Wire::Nil => Json::Null,
        Wire::Integer(i) => Json::Number(JsonNumber::of_int(i)),
        Wire::Boolean(b) => Json::Bool(b),
        Wire::Okay => Json::String(okay_text()),
        Wire::SimpleString(text) => Json::String(text),
        Wire::BulkBytes(bytes) => text_or_json(utf8_lossy(bytes)),
        Wire::Double(bits) => double_json(bits),
        Wire::VerbatimText(text) => text_or_json(text),
        Wire::Array(items) => Json::Array(translate_items(items)),
        Wire::Members(items) => Json::Array(translate_items(items)),
        Wire::Pairs(pairs) => Json::Object(translate_pairs(pairs)),
        Wire::Other(diagnostic) => Json::Object(
            Map::empty().insert(unsupported_key(), Json::String(diagnostic)),
        ),
    }
}

/// The key of the object entry made from a map key.
fn key_string(key: &WireValue) -> (text: String)
    ensures
        text@ == key_text(key@),
{
    match key {
        WireValue::BulkBytes(bytes) => lossy_text(bytes.as_slice()),
        WireValue::SimpleString(text) => text.clone(),
        _ => "unknown_key".to_owned(),
    }
}

/// Translates each reply of a list.
fn translate_list(items: &Vec<WireValue>) -> (translated: Vec<JsonValue>)
    ensures
        items_model(translated@) == translate_items(wire_items(items@)),
        forall|i: int| 0 <= i < translated@.len() ==> (#[trigger] translated@[i]).well_formed(),
    decreases items,
{
    let mut translated: Vec<JsonValue> = Vec::new();
    let mut i: usize = 0;
    while i < items.len()
        invariant
            i <= items@.len(),
            translated@.len() == i,
            forall|k: int|
                0 <= k < i ==> (#[trigger] translated@[k])@ == translate(items@[k]@)
                    && translated@[k].well_formed(),
        decreases items@.len() - i,
    {
        let json = translate_value(&items[i]);
        translated.push(json);
        i = i + 1;
    }
    assert(items_model(translated@) =~= translate_items(wire_items(items@)));
    translated
}

/// Translates the pairs of a map into the entries of an object.
fn translate_map(pairs: &Vec<(WireValue, WireValue)>) -> (entries: Vec<(String, JsonValue)>)
    ensures
        entries_model(entries@) == translate_pairs(wire_pairs(pairs@)),
        distinct_keys(entries@),
        forall|i: int| 0 <= i < entries@.len() ==> (#[trigger] entries@[i]).1.well_formed(),
    decreases pairs,
{
    let mut entries: Vec<(String, JsonValue)> = Vec::new();
    let mut i: usize = 0;
    while i < pairs.len()
        invariant
            i <= pairs@.len(),
            entries_model(entries@) == translate_pairs(wire_pairs(pairs@).take(i as int)),
            distinct_keys(entries@),
            forall|k: int| 0 <= k < entries@.len() ==> (#[trigger] entries@[k]).1.well_formed(),
        decreases pairs@.len() - i,
    {
        let key = key_string(&pairs[i].0);
        let value = translate_value(&pairs[i].1);
        proof {
            let done = wire_pairs(pairs@).take(i as int);
            let next = wire_pairs(pairs@).take(i + 1);
            assert(next.drop_last() =~= done);
            assert(next.last() == (pairs@[i as int].0@, pairs@[i as int].1@));
        }
        insert_entry(&mut entries, key, value);
        i = i + 1;
    }
    assert(wire_pairs(pairs@).take(i as int) =~= wire_pairs(pairs@));
    entries
}

/// Translates a reply into the JSON value it is shown as.
pub fn translate_value(value: &WireValue) -> (json: JsonValue)
    ensures
        json@ == translate(value@),
        json.well_formed(),
    decreases value,
{
    match value {
        WireValue::Nil => JsonValue::Null,
        WireValue::Integer(i) => JsonValue::Number(JsonNumber::from_i64(*i)),
        WireValue::Boolean(b) => JsonValue::Bool(*b),
        WireValue::Okay => JsonValue::String("OK".to_owned()),
        WireValue::SimpleString(text) => JsonValue::String(text.clone()),
        WireValue::BulkBytes(bytes) => {
            let text = lossy_text(bytes.as_slice());
            parse_as_json_or_string(text.as_str())
        },
        WireValue::Double(bits) => JsonValue::from_double_bits(*bits),
        WireValue::VerbatimText { format: _, text } => parse_as_json_or_string(text.as_str()),
        WireValue::Array(items) => JsonValue::Array(translate_list(items)),
        WireValue::Members(items) => JsonValue::Array(translate_list(items)),
        WireValue::Pairs(pairs) => JsonValue::Object(translate_map(pairs)),
        WireValue::Other(diagnostic) => {
            let mut entries: Vec<(String, JsonValue)> = Vec::new();
            let entry = ("unsupported".to_owned(), JsonValue::String(diagnostic.clone()));
            proof {
                lemma_entries_push(entries@, entry);
            }
            entries.push(entry);
            assert(entries@[0].1.well_formed());
            JsonValue::Object(entries)
        },
    }
}

/// Translates a reply of the store into the JSON value it is shown as.
/// Every reply has a translation: none is rejected.
pub fn redis_to_json(value: WireValue) -> (json: JsonValue)
    ensures
        json@ == translate(value@),
        json.well_formed(),
{
    translate_value(&value)
}

} // verus!
