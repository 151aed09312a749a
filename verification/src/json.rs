//! The JSON value model and its executable representation.

use serde_json::Value;
use vstd::prelude::*;

verus! {

/// `serde_json::Value`, the tree that the parser builds. Nothing is known
/// of a value of it here; it is only handed from the parser to the
/// functions that move it into a [`JsonValue`].
#[verifier::external_type_specification]
#[verifier::external_body]
pub struct ExJsonTree(Value);

/// A JSON number: a non-negative integer, a negative integer, or a finite
/// double held as its IEEE 754 bit pattern.
#[derive(Clone, Copy, Debug, PartialEq, Eq)]
pub enum JsonNumber {
    PosInt(u64),
    NegInt(i64),
    Float(u64),
}

/// Whether the bit pattern of a double denotes a finite number, that is,
/// neither an infinity nor a NaN: its eleven exponent bits are not all set.
pub open spec fn is_finite_bits(bits: u64) -> bool {
    (bits >> 52) & 0x7ff != 0x7ff
}

/// A double is finite exactly when the exponent field of its bit pattern,
/// read in place, differs from the field of the infinities; so the
/// infinities and every NaN, whatever their sign and payload, are not
/// finite, and every pattern below that of positive infinity is.
pub proof fn lemma_finite_bits(bits: u64)
    ensures
        is_finite_bits(bits) <==> bits & 0x7ff0_0000_0000_0000 != 0x7ff0_0000_0000_0000,
        bits < 0x7ff0_0000_0000_0000 ==> is_finite_bits(bits),
        !is_finite_bits(0x7ff0_0000_0000_0000),
        !is_finite_bits(0xfff0_0000_0000_0000),
        !is_finite_bits(0x7ff8_0000_0000_0000),
{
    assert(((bits >> 52) & 0x7ff != 0x7ff) <==> (bits & 0x7ff0_0000_0000_0000
        != 0x7ff0_0000_0000_0000)) by (bit_vector);
    assert(bits < 0x7ff0_0000_0000_0000 ==> (bits >> 52) & 0x7ff != 0x7ff) by (bit_vector);
    assert((0x7ff0_0000_0000_0000u64 >> 52) & 0x7ff == 0x7ff) by (bit_vector);
    assert((0xfff0_0000_0000_0000u64 >> 52) & 0x7ff == 0x7ff) by (bit_vector);
    assert((0x7ff8_0000_0000_0000u64 >> 52) & 0x7ff == 0x7ff) by (bit_vector);
}

impl JsonNumber {
    /// A negative integer is negative and a double is finite.
    pub open spec fn well_formed(self) -> bool {
        match self {
            JsonNumber::PosInt(_) => true,
            JsonNumber::NegInt(i) => i < 0,
            JsonNumber::Float(bits) => is_finite_bits(bits),
        }
    }

    /// The number that stands for a signed integer.
    pub open spec fn of_int(i: i64) -> JsonNumber {
        if i >= 0 {
            JsonNumber::PosInt(i as u64)
        } else {
            JsonNumber::NegInt(i)
        }
    }

    /// The JSON number of a signed integer.
    pub fn from_i64(i: i64) -> (n: JsonNumber)
        ensures
            n == JsonNumber::of_int(i),
            n.well_formed(),
    {
        if i >= 0 {
            JsonNumber::PosInt(i as u64)
        } else {
            JsonNumber::NegInt(i)
        }
    }
}

/// A JSON value as a mathematical object. An object maps each of its keys to
/// one value.
pub ghost enum Json {
    Null,
    Bool(bool),
    Number(JsonNumber),
    String(Seq<char>),
    Array(Seq<Json>),
    Object(Map<Seq<char>, Json>),
}

/// A JSON value. An object keeps its entries in the order in which their
/// keys were first inserted.
#[derive(Debug, PartialEq)]
pub enum JsonValue {
    Null,
    Bool(bool),
    Number(JsonNumber),
    String(String),
    Array(Vec<JsonValue>),
    Object(Vec<(String, JsonValue)>),
}

/// The values that a sequence of representations stands for, in order.
pub open spec fn items_model(items: Seq<JsonValue>) -> Seq<Json>
    decreases items,
{
    Seq::new(
        items.len(),
        |i: int|
            if 0 <= i < items.len() {
                items[i]@
            } else {
                Json::Null
            },
    )
}

/// The mapping that a sequence of entries stands for: each entry is
/// inserted in turn, so a later entry replaces an earlier one of its key.
pub open spec fn entries_model(entries: Seq<(String, JsonValue)>) -> Map<Seq<char>, Json>
    decreases entries,
{
    if entries.len() == 0 {
        Map::empty()
    } else {
        entries_model(entries.drop_last()).insert(entries.last().0@, entries.last().1@)
    }
}

impl View for JsonValue {
    type V = Json;

    open spec fn view(&self) -> Json
        decreases self,
    {
        match self {
            JsonValue::Null => Json::Null,
            JsonValue::Bool(b) => Json::Bool(*b),
            JsonValue::Number(n) => Json::Number(*n),
            JsonValue::String(s) => Json::String(s@),
            JsonValue::Array(items) => Json::Array(items_model(items@)),
            JsonValue::Object(entries) => Json::Object(entries_model(entries@)),
        }
    }
}

/// No two entries of the sequence have the same key.
pub open spec fn distinct_keys(entries: Seq<(String, JsonValue)>) -> bool {
    forall|i: int, j: int|
        0 <= i < j < entries.len() ==> (#[trigger] entries[i]).0@ != (#[trigger] entries[j]).0@
}

impl JsonValue {
    /// Every number in the value is well formed and no object in it holds a
    /// key twice.
    pub open spec fn well_formed(&self) -> bool
        decreases self,
    {
        match self {
            JsonValue::Number(n) => n.well_formed(),
            JsonValue::Array(items) => forall|i: int|
                0 <= i < items@.len() ==> (#[trigger] items@[i]).well_formed(),
            JsonValue::Object(entries) => {
                &&& distinct_keys(entries@)
                &&& forall|i: int|
                    0 <= i < entries@.len() ==> (#[trigger] entries@[i]).1.well_formed()
            },
            _ => true,
        }
    }

    /// The JSON value of a double given by its bit pattern: the number
    /// itself when it is finite, and null for an infinity or a NaN.
    pub fn from_double_bits(bits: u64) -> (value: JsonValue)
        ensures
            value@ == double_json(bits),
            value.well_formed(),
    {
        if (bits >> 52) & 0x7ff != 0x7ff {
            JsonValue::Number(JsonNumber::Float(bits))
        } else {
            JsonValue::Null
        }
    }
}

/// What a double stands for in JSON, which has neither infinities nor NaN.
pub open spec fn double_json(bits: u64) -> Json {
    if is_finite_bits(bits) {
        Json::Number(JsonNumber::Float(bits))
    } else {
        Json::Null
    }
}

/// Appending an entry to a sequence inserts it into the mapping.
pub proof fn lemma_entries_push(entries: Seq<(String, JsonValue)>, entry: (String, JsonValue))
    ensures
        entries_model(entries.push(entry)) == entries_model(entries).insert(entry.0@, entry.1@),
{
    assert(entries.push(entry).drop_last() =~= entries);
}

/// The keys of the mapping are exactly the keys of the entries.
pub proof fn lemma_entries_keys(entries: Seq<(String, JsonValue)>, key: Seq<char>)
    ensures
        entries_model(entries).dom().contains(key) <==> exists|i: int|
            0 <= i < entries.len() && (#[trigger] entries[i]).0@ == key,
    decreases entries.len(),
{
    if entries.len() > 0 {
        let front = entries.drop_last();
        let last = entries.last();
        lemma_entries_keys(front, key);
        assert(entries_model(entries) == entries_model(front).insert(last.0@, last.1@));
        if entries_model(entries).dom().contains(key) {
            if last.0@ == key {
                assert(entries[entries.len() - 1].0@ == key);
            } else {
                assert(entries_model(front).dom().contains(key));
                let i = choose|i: int| 0 <= i < front.len() && (#[trigger] front[i]).0@ == key;
                assert(entries[i] == front[i]);
            }
        }
        if exists|i: int| 0 <= i < entries.len() && (#[trigger] entries[i]).0@ == key {
            let i = choose|i: int| 0 <= i < entries.len() && (#[trigger] entries[i]).0@ == key;
            if i < entries.len() - 1 {
                assert(front[i] == entries[i]);
            }
        }
    }
}

/// A key maps to the value of the last entry that holds it.
pub proof fn lemma_entries_value(entries: Seq<(String, JsonValue)>, at: int)
    requires
        0 <= at < entries.len(),
        forall|i: int| at < i < entries.len() ==> (#[trigger] entries[i]).0@ != entries[at].0@,
    ensures
        entries_model(entries).dom().contains(entries[at].0@),
        entries_model(entries)[entries[at].0@] == entries[at].1@,
    decreases entries.len(),
{
    let front = entries.drop_last();
    let last = entries.last();
    assert(entries_model(entries) == entries_model(front).insert(last.0@, last.1@));
    if at < entries.len() - 1 {
        assert(front[at] == entries[at]);
        assert forall|i: int| at < i < front.len() implies (#[trigger] front[i]).0@
            != front[at].0@ by {
            assert(front[i] == entries[i]);
        }
        lemma_entries_value(front, at);
        assert(entries[entries.len() - 1].0@ != entries[at].0@);
    }
}

/// Replacing the last entry that holds a key by another entry of that key
/// inserts the new value into the mapping.
pub proof fn lemma_entries_update(
    entries: Seq<(String, JsonValue)>,
    at: int,
    entry: (String, JsonValue),
)
    requires
        0 <= at < entries.len(),
        entries[at].0@ == entry.0@,
        forall|i: int| at < i < entries.len() ==> (#[trigger] entries[i]).0@ != entry.0@,
    ensures
        entries_model(entries.update(at, entry)) == entries_model(entries).insert(
            entry.0@,
            entry.1@,
        ),
    decreases entries.len(),
{
    let updated = entries.update(at, entry);
    let front = entries.drop_last();
    let last = entries.last();
    assert(entries_model(entries) == entries_model(front).insert(last.0@, last.1@));
    assert(entries_model(updated) == entries_model(updated.drop_last()).insert(
        updated.last().0@,
        updated.last().1@,
    ));
    if at == entries.len() - 1 {
        assert(updated.drop_last() =~= front);
        assert(updated.last() == entry);
        assert(entries_model(updated) =~= entries_model(entries).insert(entry.0@, entry.1@));
    } else {
        assert(updated.drop_last() =~= front.update(at, entry));
        assert(front[at] == entries[at]);
        assert forall|i: int| at < i < front.len() implies (#[trigger] front[i]).0@
            != entry.0@ by {
            assert(front[i] == entries[i]);
        }
        lemma_entries_update(front, at, entry);
        assert(entries[entries.len() - 1].0@ != entry.0@);
        assert(updated.last() == last);
        assert(entries_model(updated) =~= entries_model(entries).insert(entry.0@, entry.1@));
    }
}

/// Replacing an entry by another entry of its key keeps the keys distinct.
pub proof fn lemma_update_keeps_keys_distinct(
    entries: Seq<(String, JsonValue)>,
    at: int,
    entry: (String, JsonValue),
)
    requires
        0 <= at < entries.len(),
        entries[at].0@ == entry.0@,
        distinct_keys(entries),
    ensures
        distinct_keys(entries.update(at, entry)),
{
    let updated = entries.update(at, entry);
    assert forall|i: int, j: int| 0 <= i < j < updated.len() implies (#[trigger] updated[i]).0@
        != (#[trigger] updated[j]).0@ by {
        assert(entries[i].0@ != entries[j].0@);
    }
}

/// Appending an entry whose key is new keeps the keys distinct.
pub proof fn lemma_push_keeps_keys_distinct(
    entries: Seq<(String, JsonValue)>,
    entry: (String, JsonValue),
)
    requires
        !holds_key(entries, entry.0@),
        distinct_keys(entries),
    ensures
        distinct_keys(entries.push(entry)),
{
    let pushed = entries.push(entry);
    assert forall|i: int, j: int| 0 <= i < j < pushed.len() implies (#[trigger] pushed[i]).0@
        != (#[trigger] pushed[j]).0@ by {
        if j < entries.len() {
            assert(entries[i].0@ != entries[j].0@);
        } else {
            assert(entries[i].0@ != entry.0@);
        }
    }
}

/// Some entry of the sequence has the key.
pub open spec fn holds_key(entries: Seq<(String, JsonValue)>, key: Seq<char>) -> bool {
    exists|i: int| 0 <= i < entries.len() && (#[trigger] entries[i]).0@ == key
}

/// Whether `at` is the position of the last entry that holds the key.
pub open spec fn last_holder(entries: Seq<(String, JsonValue)>, key: Seq<char>, at: int) -> bool {
    &&& 0 <= at < entries.len()
    &&& entries[at].0@ == key
    &&& forall|i: int| at < i < entries.len() ==> (#[trigger] entries[i]).0@ != key
}

/// The entries after `entry` has been inserted: it takes the place of the
/// last entry of its key where there is one, and comes last where there is
/// none.
pub open spec fn with_entry(entries: Seq<(String, JsonValue)>, entry: (String, JsonValue)) -> Seq<
    (String, JsonValue),
> {
    if holds_key(entries, entry.0@) {
        entries.update(choose|at: int| last_holder(entries, entry.0@, at), entry)
    } else {
        entries.push(entry)
    }
}

/// Finds the last entry that holds `key`.
pub fn find_entry(entries: &Vec<(String, JsonValue)>, key: &String) -> (found: Option<usize>)
    ensures
        match found {
            Some(at) => last_holder(entries@, key@, at as int),
            None => !holds_key(entries@, key@),
        },
{
    let mut at: usize = entries.len();
    while at > 0
        invariant
            at <= entries@.len(),
            forall|i: int| at <= i < entries@.len() ==> (#[trigger] entries@[i]).0@ != key@,
        decreases at,
    {
        at = at - 1;
        if entries[at].0 == *key {
            return Some(at);
        }
    }
    None
}

/// Inserts an entry into the entries of an object, replacing the value of
/// an entry that already holds the key. Entries whose keys were distinct
/// stay so.
pub fn insert_entry(entries: &mut Vec<(String, JsonValue)>, key: String, value: JsonValue)
    ensures
        final(entries)@ == with_entry(old(entries)@, (key, value)),
        entries_model(final(entries)@) == entries_model(old(entries)@).insert(key@, value@),
        distinct_keys(old(entries)@) ==> distinct_keys(final(entries)@),
        forall|i: int|
            0 <= i < final(entries)@.len() ==> (#[trigger] final(entries)@[i]) == (key, value)
                || old(entries)@.contains(final(entries)@[i]),
{
    let found = find_entry(entries, &key);
    match found {
        Some(at) => {
            proof {
                let entry = (key, value);
                let chosen = choose|at: int| last_holder(entries@, entry.0@, at);
                assert(last_holder(entries@, entry.0@, at as int));
                if chosen < at {
                    assert(entries@[at as int].0@ != entry.0@);
                }
                if at < chosen {
                    assert(entries@[chosen].0@ != entry.0@);
                }
                lemma_entries_update(entries@, at as int, entry);
                if distinct_keys(entries@) {
                    lemma_update_keeps_keys_distinct(entries@, at as int, entry);
                }
            }
            entries.set(at, (key, value));
            assert forall|i: int| 0 <= i < entries@.len() implies (#[trigger] entries@[i]) == (
                key,
                value,
            ) || old(entries)@.contains(entries@[i]) by {
                if i != at {
                    assert(entries@[i] == old(entries)@[i]);
                }
            }
        },
        None => {
            proof {
                lemma_entries_push(entries@, (key, value));
                if distinct_keys(entries@) {
                    lemma_push_keeps_keys_distinct(entries@, (key, value));
                }
            }
            entries.push((key, value));
            assert forall|i: int| 0 <= i < entries@.len() implies (#[trigger] entries@[i]) == (
                key,
                value,
            ) || old(entries)@.contains(entries@[i]) by {
                if i < old(entries)@.len() {
                    assert(entries@[i] == old(entries)@[i]);
                }
            }
        },
    }
}

impl JsonValue {
    /// The value that an object holds under `key`; `None` when the object
    /// has no such key, or when the value is no object.
    pub fn get(&self, key: &String) -> (found: Option<&JsonValue>)
        ensures
            match found {
                Some(value) => self@ matches Json::Object(fields) && fields.dom().contains(key@)
                    && fields[key@] == value@,
                None => !(self@ matches Json::Object(fields) && fields.dom().contains(key@)),
            },
    {
        match self {
            JsonValue::Object(entries) => {
                proof {
                    lemma_entries_keys(entries@, key@);
                }
                match find_entry(entries, key) {
                    Some(at) => {
                        proof {
                            lemma_entries_value(entries@, at as int);
                        }
                        Some(&entries[at].1)
                    },
                    None => None,
                }
            },
            _ => None,
        }
    }
}

/// What the JSON parser, `serde_json::from_str`, makes of a text: the
/// value it reads, or `None` where it rejects the text.
pub uninterp spec fn parsed_json(text: Seq<char>) -> Option<Json>;

/// The JSON value that a tree of the parser, a `serde_json::Value`, holds.
pub uninterp spec fn tree_json(tree: Value) -> Json;

/// Parses a text with `serde_json::from_str` into a `serde_json::Value`.
/// The contract names what the parser reads: the value that the tree
/// holds, or nothing where the parser rejects the text.
#[verifier::external_body]
pub(crate) fn parse_tree(text: &str) -> (parsed: Option<Value>)
    ensures
        match parsed {
            Some(tree) => parsed_json(text@) == Some(tree_json(tree)),
            None => parsed_json(text@) is None,
        },
{
    serde_json::from_str::<Value>(text).ok()
}

/// Moves a `serde_json::Value` into a [`JsonValue`], variant by variant.
/// `Number::as_u64` answers for a non-negative integer, `Number::as_i64`
/// then answers for a negative one, and `Number::as_f64` gives the double
/// of any other number. An object's entries come in the order in which the
/// parser's map hands them out. The contract says that the result stands for
/// the value that the tree holds, and adds what the parser's data types
/// guarantee: a number is a non-negative integer, a negative integer or a
/// finite double, and an object holds each key once.
#[verifier::external_body]
pub(crate) fn value_from_tree(tree: Value) -> (json: JsonValue)
    ensures
        json@ == tree_json(tree),
        json.well_formed(),
{
    match tree {
        Value::Null => JsonValue::Null,
        Value::Bool(b) => JsonValue::Bool(b),
        Value::Number(n) => JsonValue::Number(match (n.as_u64(), n.as_i64()) {
            (Some(u), _) => JsonNumber::PosInt(u),
            (_, Some(i)) => JsonNumber::NegInt(i),
            _ => JsonNumber::Float(n.as_f64().map_or(0, |double| double.to_bits())),
        }),
        Value::String(s) => JsonValue::String(s),
        Value::Array(a) => JsonValue::Array(a.into_iter().map(value_from_tree).collect()),
        Value::Object(o) => JsonValue::Object(
            o.into_iter().map(|(k, v)| (k, value_from_tree(v))).collect(),
        ),
    }
}

/// Parses a text as JSON: the value that the parser reads, or `None` where
/// it rejects the text.
pub fn parse_json(text: &str) -> (parsed: Option<JsonValue>)
    ensures
        match parsed {
            Some(value) => parsed_json(text@) == Some(value@) && value.well_formed(),
            None => parsed_json(text@) is None,
        },
{
    match parse_tree(text) {
        Some(tree) => Some(value_from_tree(tree)),
        None => None,
    }
}

/// The value shown for a text once the parser has been asked: what the
/// parser read, or the text itself as a JSON string where it read nothing.
pub fn json_or_string(text: &str, parsed: Option<JsonValue>) -> (value: JsonValue)
    ensures
        value@ == match parsed {
            Some(json) => json@,
            None => Json::String(text@),
        },
        parsed matches Some(json) && json.well_formed() ==> value.well_formed(),
{
    match parsed {
        Some(json) => json,
        None => JsonValue::String(text.to_owned()),
    }
}

/// What a stored text is shown as: the JSON value it parses to, and the
/// text itself as a JSON string where it does not parse.
pub open spec fn text_or_json(text: Seq<char>) -> Json {
    match parsed_json(text) {
        Some(json) => json,
        None => Json::String(text),
    }
}

/// Shows a text as the JSON value that it parses to, or as a JSON string
/// where it is no JSON text.
pub fn parse_as_json_or_string(text: &str) -> (value: JsonValue)
    ensures
        value@ == text_or_json(text@),
        value.well_formed(),
{
    let parsed = parse_json(text);
    json_or_string(text, parsed)
}

} // verus!
