//! Inspection of one key: the read request that belongs to its type, and
//! the JSON content made of the reply.

use vstd::prelude::*;
use crate::command::{texts, Request, StoreCommand};
use crate::errors::EngineError;
use crate::json::{
    distinct_keys, entries_model, insert_entry, lemma_entries_push, Json, JsonValue,
};
use crate::retrieve_keys::{metadata_plan, metadata_requests, requests};
use crate::text::text_eq;
use crate::translate::{translate, translate_value, unsupported_key};
use crate::wire::{Wire, WireValue};

verus! {

/// The shape of a key's value, as far as the engine can read it.
#[derive(Debug, Clone, Copy, PartialEq, Eq, Structural)]
pub enum KeyType {
    /// A string.
    StringKey,
    /// A hash of fields.
    HashKey,
    /// A list.
    ListKey,
    /// A set.
    SetKey,
    /// A sorted set.
    SortedSetKey,
    /// Anything else, the answer for a key that does not exist included.
    Other,
}

/// The shape that a type name of the server stands for.
pub open spec fn key_type_of(name: Seq<char>) -> KeyType {
    if name == "string"@ {
        KeyType::StringKey
    } else if name == "hash"@ {
        KeyType::HashKey
    } else if name == "list"@ {
        KeyType::ListKey
    } else if name == "set"@ {
        KeyType::SetKey
    } else if name == "zset"@ {
        KeyType::SortedSetKey
    } else {
        KeyType::Other
    }
}

/// The type name with which the server answers for a key that is absent.
pub open spec fn missing_type() -> Seq<char> {
    "none"@
}

/// The request that reads the whole value of a key of the given shape;
/// `None` for a shape without a read path.
pub open spec fn read_request(key: Seq<char>, shape: KeyType) -> Option<Request> {
    match shape {
        KeyType::StringKey => Some(Request::Get(key)),
        KeyType::HashKey => Some(Request::HashGetAll(key)),
        KeyType::ListKey => Some(Request::ListRange { key, start: 0, stop: -1i64 }),
        KeyType::SetKey => Some(Request::SetMembers(key)),
        KeyType::SortedSetKey => Some(Request::SortedSetRange { key, start: 0, stop: -1i64 }),
        KeyType::Other => None,
    }
}

impl KeyType {
    /// The shape that a type name of the server stands for.
    pub fn from_name(name: &str) -> (shape: KeyType)
        ensures
            shape == key_type_of(name@),
    {
        if text_eq(name, "string") {
            KeyType::StringKey
        } else if text_eq(name, "hash") {
            KeyType::HashKey
        } else if text_eq(name, "list") {
            KeyType::ListKey
        } else if text_eq(name, "set") {
            KeyType::SetKey
        } else if text_eq(name, "zset") {
            KeyType::SortedSetKey
        } else {
            KeyType::Other
        }
    }

    /// The request that reads the whole value of `key`. A shape without a
    /// read path has none; that is an answer, not a failure.
    pub fn read_command(&self, key: &String) -> (command: Option<StoreCommand>)
        ensures
            match command {
                Some(c) => read_request(key@, *self) == Some(c@),
                None => read_request(key@, *self) is None,
            },
    {
        match self {
            KeyType::StringKey => Some(StoreCommand::Get(key.clone())),
            KeyType::HashKey => Some(StoreCommand::HashGetAll(key.clone())),
            KeyType::ListKey => Some(StoreCommand::ListRange { key: key.clone(), start: 0, stop: -1 }),
            KeyType::SetKey => Some(StoreCommand::SetMembers(key.clone())),
            KeyType::SortedSetKey => Some(
                StoreCommand::SortedSetRange { key: key.clone(), start: 0, stop: -1 },
            ),
            KeyType::Other => None,
        }
    }
}

/// What is shown of an inspected key: its name, the name of its type and
/// its time to live in seconds.
#[derive(Debug, Default, PartialEq)]
pub struct KeyInfo {
    pub key: String,
    pub key_type: String,
    pub ttl: isize,
}

impl Clone for KeyInfo {
    fn clone(&self) -> (copy: KeyInfo)
        ensures
            copy.key@ == self.key@,
            copy.key_type@ == self.key_type@,
            copy.ttl == self.ttl,
    {
        KeyInfo { key: self.key.clone(), key_type: self.key_type.clone(), ttl: self.ttl }
    }
}

impl KeyInfo {
    /// The requests that resolve the type and the time to live of `key`,
    /// sent together in one round trip.
    pub fn requests(key: &String) -> (batch: Vec<StoreCommand>)
        ensures
            requests(batch@) == seq![Request::TypeOf(key@), Request::TimeToLive(key@)],
    {
        let mut batch: Vec<StoreCommand> = Vec::new();
        batch.push(StoreCommand::TypeOf(key.clone()));
        batch.push(StoreCommand::TimeToLive(key.clone()));
        assert(requests(batch@) =~= seq![Request::TypeOf(key@), Request::TimeToLive(key@)]);
        batch
    }

    /// The shape of the key's value.
    pub fn shape(&self) -> (shape: KeyType)
        ensures
            shape == key_type_of(self.key_type@),
    {
        KeyType::from_name(self.key_type.as_str())
    }

    /// The failure with which the inspection of a key of this type ends
    /// before anything is read, if it does: a key that does not exist is
    /// not found, and any other type without a read path is unsupported.
    pub open spec fn refusal(self) -> Option<EngineError> {
        if read_request(self.key@, key_type_of(self.key_type@)) is Some {
            None
        } else if self.key_type@ == missing_type() {
            Some(EngineError::NotFound)
        } else {
            Some(EngineError::UnsupportedType)
        }
    }

    /// The request that reads the key's value, or the failure that ends the
    /// inspection.
    pub fn plan_read(&self) -> (plan: Result<StoreCommand, EngineError>)
        ensures
            match plan {
                Ok(command) => self.refusal() is None && read_request(
                    self.key@,
                    key_type_of(self.key_type@),
                ) == Some(command@),
                Err(error) => self.refusal() == Some(error),
            },
    {
        let shape = KeyType::from_name(self.key_type.as_str());
        match shape.read_command(&self.key) {
            Some(command) => Ok(command),
            None => {
                if text_eq(self.key_type.as_str(), "none") {
                    Err(EngineError::NotFound)
                } else {
                    Err(EngineError::UnsupportedType)
                }
            },
        }
    }
}

/// The reply to a read request, as a mathematical object.
pub ghost enum Reply {
    Value(Wire),
    Fields(Seq<(Seq<char>, Wire)>),
}

/// The reply to a read request: the fields of a hash with their values, or
/// one reply value for any other shape.
#[derive(Debug, PartialEq)]
pub enum ReadReply {
    Value(WireValue),
    Fields(Vec<(String, WireValue)>),
}

/// The fields that a sequence of field representations stands for.
pub open spec fn fields_model(fields: Seq<(String, WireValue)>) -> Seq<(Seq<char>, Wire)> {
    fields.map_values(|field: (String, WireValue)| (field.0@, field.1@))
}

impl View for ReadReply {
    type V = Reply;

    open spec fn view(&self) -> Reply {
        match self {
            ReadReply::Value(value) => Reply::Value(value@),
            ReadReply::Fields(fields) => Reply::Fields(fields_model(fields@)),
        }
    }
}

/// The JSON object of a hash: each field is inserted in turn under its
/// name, with the translation of its value.
pub open spec fn hash_object(fields: Seq<(Seq<char>, Wire)>) -> Map<Seq<char>, Json>
    decreases fields.len(),
{
    if fields.len() == 0 {
        Map::empty()
    } else {
        hash_object(fields.drop_last()).insert(fields.last().0, translate(fields.last().1))
    }
}

/// The JSON content shown for a reply.
pub open spec fn content(reply: Reply) -> Json {
    match reply {
        Reply::Value(value) => translate(value),
        Reply::Fields(fields) => Json::Object(hash_object(fields)),
    }
}

/// The object of a hash has exactly the names of the fields as its keys.
pub proof fn lemma_hash_object_keys(fields: Seq<(Seq<char>, Wire)>, name: Seq<char>)
    ensures
        hash_object(fields).dom().contains(name) <==> exists|i: int|
            0 <= i < fields.len() && (#[trigger] fields[i]).0 == name,
    decreases fields.len(),
{
    if fields.len() > 0 {
        let front = fields.drop_last();
        lemma_hash_object_keys(front, name);
        if hash_object(fields).dom().contains(name) {
            if fields.last().0 == name {
                assert(fields[fields.len() - 1].0 == name);
            } else {
                let i = choose|i: int| 0 <= i < front.len() && (#[trigger] front[i]).0 == name;
                assert(fields[i] == front[i]);
            }
        }
        if exists|i: int| 0 <= i < fields.len() && (#[trigger] fields[i]).0 == name {
            let i = choose|i: int| 0 <= i < fields.len() && (#[trigger] fields[i]).0 == name;
            if i < fields.len() - 1 {
                assert(front[i] == fields[i]);
            }
        }
    }
}

/// No two fields of the sequence have the same name.
pub open spec fn distinct_names(fields: Seq<(Seq<char>, Wire)>) -> bool {
    forall|i: int, j: int|
        0 <= i < j < fields.len() ==> (#[trigger] fields[i]).0 != (#[trigger] fields[j]).0
}

/// In the object of a hash whose field names are distinct, each field's
/// name maps to the translation of that field's value.
pub proof fn lemma_hash_object_value(fields: Seq<(Seq<char>, Wire)>, at: int)
    requires
        distinct_names(fields),
        0 <= at < fields.len(),
    ensures
        hash_object(fields).dom().contains(fields[at].0),
        hash_object(fields)[fields[at].0] == translate(fields[at].1),
    decreases fields.len(),
{
    let front = fields.drop_last();
    if at < fields.len() - 1 {
        assert(front[at] == fields[at]);
        assert(distinct_names(front)) by {
            assert forall|i: int, j: int| 0 <= i < j < front.len() implies (#[trigger] front[i]).0
                != (#[trigger] front[j]).0 by {
                assert(fields[i].0 != fields[j].0);
            }
        }
        lemma_hash_object_value(front, at);
        assert(fields[at].0 != fields[fields.len() - 1].0);
    }
}

/// The content shown for a hash does not depend on the order in which the
/// server hands out its fields: two replies that hold the same fields, each
/// name once, give the same object.
pub proof fn lemma_hash_content_ignores_order(
    first: Seq<(Seq<char>, Wire)>,
    second: Seq<(Seq<char>, Wire)>,
)
    requires
        distinct_names(first),
        distinct_names(second),
        forall|i: int| 0 <= i < first.len() ==> second.contains(#[trigger] first[i]),
        forall|j: int| 0 <= j < second.len() ==> first.contains(#[trigger] second[j]),
    ensures
        content(Reply::Fields(first)) == content(Reply::Fields(second)),
{
    let a = hash_object(first);
    let b = hash_object(second);
    assert forall|name: Seq<char>|
        (#[trigger] a.dom().contains(name)) == b.dom().contains(name) && (a.dom().contains(name)
            ==> a[name] == b[name]) by {
        lemma_hash_object_keys(first, name);
        lemma_hash_object_keys(second, name);
        if a.dom().contains(name) {
            let i = choose|i: int| 0 <= i < first.len() && (#[trigger] first[i]).0 == name;
            assert(second.contains(first[i]));
            let j = choose|j: int| 0 <= j < second.len() && second[j] == first[i];
            lemma_hash_object_value(first, i);
            lemma_hash_object_value(second, j);
        }
        if b.dom().contains(name) {
            let j = choose|j: int| 0 <= j < second.len() && (#[trigger] second[j]).0 == name;
            assert(first.contains(second[j]));
            let i = choose|i: int| 0 <= i < first.len() && first[i] == second[j];
            lemma_hash_object_value(first, i);
        }
    }
    assert(a =~= b);
}

/// Builds the entries of the object of a hash.
fn hash_entries(fields: &Vec<(String, WireValue)>) -> (entries: Vec<(String, JsonValue)>)
    ensures
        entries_model(entries@) == hash_object(fields_model(fields@)),
        distinct_keys(entries@),
        forall|i: int| 0 <= i < entries@.len() ==> (#[trigger] entries@[i]).1.well_formed(),
{
    let mut entries: Vec<(String, JsonValue)> = Vec::new();
    let mut i: usize = 0;
    while i < fields.len()
        invariant
            i <= fields@.len(),
            entries_model(entries@) == hash_object(fields_model(fields@).take(i as int)),
            distinct_keys(entries@),
            forall|k: int| 0 <= k < entries@.len() ==> (#[trigger] entries@[k]).1.well_formed(),
        decreases fields@.len() - i,
    {
        let name = fields[i].0.clone();
        let value = translate_value(&fields[i].1);
        proof {
            let done = fields_model(fields@).take(i as int);
            let next = fields_model(fields@).take(i + 1);
            assert(next.drop_last() =~= done);
            assert(next.last() == (fields@[i as int].0@, fields@[i as int].1@));
        }
        insert_entry(&mut entries, name, value);
        i = i + 1;
    }
    assert(fields_model(fields@).take(i as int) =~= fields_model(fields@));
    entries
}

impl ReadReply {
    /// The JSON content shown for the reply.
    pub fn content(&self) -> (json: JsonValue)
        ensures
            json@ == content(self@),
            json.well_formed(),
    {
        match self {
            ReadReply::Value(value) => translate_value(value),
            ReadReply::Fields(fields) => JsonValue::Object(hash_entries(fields)),
        }
    }
}

impl KeyInfo {
    /// The reply that stands in for the value of a key whose type has no
    /// read path: a marker that carries the name of the type. Its content
    /// shows the type as unsupported, so that the key can still be presented.
    pub fn placeholder(&self) -> (reply: ReadReply)
        ensures
            reply@ == Reply::Value(Wire::Other(self.key_type@)),
            content(reply@) == Json::Object(
                Map::empty().insert(unsupported_key(), Json::String(self.key_type@)),
            ),
    {
        ReadReply::Value(WireValue::Other(self.key_type.clone()))
    }
}

/// What the inspection of a key hands to the presentation layer.
#[derive(Debug, PartialEq)]
pub struct RetrieveKeyResponse {
    pub details: KeyInfo,
    pub content: JsonValue,
}

impl RetrieveKeyResponse {
    /// The response for a key whose value has been read.
    pub fn new(details: KeyInfo, reply: &ReadReply) -> (response: RetrieveKeyResponse)
        ensures
            response.details == details,
            response.content@ == content(reply@),
            response.content.well_formed(),
    {
        RetrieveKeyResponse { details, content: reply.content() }
    }
}

} // verus!
