//! The requests that the engine asks the program around it to send.

use vstd::prelude::*;
use crate::text::{decimal, decimal_string, signed_decimal, signed_decimal_string};

verus! {

/// A request to the store as a mathematical object.
pub ghost enum Request {
    Ping,
    Scan { cursor: u64, pattern: Option<Seq<char>>, key_type: Option<Seq<char>> },
    TypeOf(Seq<char>),
    TimeToLive(Seq<char>),
    Get(Seq<char>),
    HashGetAll(Seq<char>),
    ListRange { key: Seq<char>, start: i64, stop: i64 },
    SetMembers(Seq<char>),
    SortedSetRange { key: Seq<char>, start: i64, stop: i64 },
    Delete(Seq<char>),
}

/// A request to the store.
#[derive(Debug, PartialEq)]
pub enum StoreCommand {
    /// The liveness probe.
    Ping,
    /// One step of the keyspace enumeration, resumed at `cursor`; a pattern
    /// or a type given here restricts the step on the server's side.
    Scan { cursor: u64, pattern: Option<String>, key_type: Option<String> },
    /// The type of a key.
    TypeOf(String),
    /// The remaining time to live of a key.
    TimeToLive(String),
    /// The value of a string key.
    Get(String),
    /// All fields of a hash with their values.
    HashGetAll(String),
    /// The elements of a list from index `start` to index `stop`, both
    /// inclusive, negative indices counting from the end.
    ListRange { key: String, start: i64, stop: i64 },
    /// All members of a set.
    SetMembers(String),
    /// The members of a sorted set by rank from `start` to `stop`, both
    /// inclusive, without their scores.
    SortedSetRange { key: String, start: i64, stop: i64 },
    /// Removal of a key.
    Delete(String),
}

/// The text of an optional string.
pub open spec fn optional_text(text: Option<String>) -> Option<Seq<char>> {
    match text {
        Some(t) => Some(t@),
        None => None,
    }
}

impl View for StoreCommand {
    type V = Request;

    open spec fn view(&self) -> Request {
        match self {
            StoreCommand::Ping => Request::Ping,
            StoreCommand::Scan { cursor, pattern, key_type } => Request::Scan {
                cursor: *cursor,
                pattern: optional_text(*pattern),
                key_type: optional_text(*key_type),
            },
            StoreCommand::TypeOf(key) => Request::TypeOf(key@),
            StoreCommand::TimeToLive(key) => Request::TimeToLive(key@),
            StoreCommand::Get(key) => Request::Get(key@),
            StoreCommand::HashGetAll(key) => Request::HashGetAll(key@),
            StoreCommand::ListRange { key, start, stop } => Request::ListRange {
                key: key@,
                start: *start,
                stop: *stop,
            },
            StoreCommand::SetMembers(key) => Request::SetMembers(key@),
            StoreCommand::SortedSetRange { key, start, stop } => Request::SortedSetRange {
                key: key@,
                start: *start,
                stop: *stop,
            },
            StoreCommand::Delete(key) => Request::Delete(key@),
        }
    }
}

/// The texts of a sequence of strings, in order.
pub open spec fn texts(strings: Seq<String>) -> Seq<Seq<char>> {
    strings.map_values(|s: String| s@)
}

/// The words of an option of the scan request: none when the option is
/// absent, and otherwise its keyword followed by its argument.
pub open spec fn option_words(keyword: Seq<char>, argument: Option<Seq<char>>) -> Seq<Seq<char>> {
    match argument {
        Some(text) => seq![keyword, text],
        None => Seq::empty(),
    }
}

/// The words of a request as they go over the wire: the command's name and
/// then its arguments.
pub open spec fn request_words(request: Request) -> Seq<Seq<char>> {
    match request {
        Request::Ping => seq!["PING"@],
        Request::Scan { cursor, pattern, key_type } => seq!["SCAN"@, decimal(cursor as nat)]
            + option_words("MATCH"@, pattern) + option_words("TYPE"@, key_type),
        Request::TypeOf(key) => seq!["TYPE"@, key],
        Request::TimeToLive(key) => seq!["TTL"@, key],
        Request::Get(key) => seq!["GET"@, key],
        Request::HashGetAll(key) => seq!["HGETALL"@, key],
        Request::ListRange { key, start, stop } => seq![
            "LRANGE"@,
            key,
            signed_decimal(start as int),
            signed_decimal(stop as int),
        ],
        Request::SetMembers(key) => seq!["SMEMBERS"@, key],
        Request::SortedSetRange { key, start, stop } => seq![
            "ZRANGE"@,
            key,
            signed_decimal(start as int),
            signed_decimal(stop as int),
        ],
        Request::Delete(key) => seq!["DEL"@, key],
    }
}

/// A command of one argument.
fn unary(name: &str, key: &String) -> (words: Vec<String>)
    ensures
        texts(words@) == seq![name@, key@],
{
    let mut words: Vec<String> = Vec::new();
    words.push(name.to_owned());
    words.push(key.clone());
    assert(texts(words@) =~= seq![name@, key@]);
    words
}

/// A command over a range of a key's elements.
fn ranged(name: &str, key: &String, start: i64, stop: i64) -> (words: Vec<String>)
    ensures
        texts(words@) == seq![
            name@,
            key@,
            signed_decimal(start as int),
            signed_decimal(stop as int),
        ],
{
    let mut words: Vec<String> = Vec::new();
    words.push(name.to_owned());
    words.push(key.clone());
    words.push(signed_decimal_string(start));
    words.push(signed_decimal_string(stop));
    assert(texts(words@) =~= seq![
        name@,
        key@,
        signed_decimal(start as int),
        signed_decimal(stop as int),
    ]);
    words
}

/// Appends an option of the scan request.
fn push_option(words: &mut Vec<String>, keyword: &str, argument: &Option<String>)
    ensures
        texts(final(words)@) == texts(old(words)@) + option_words(
            keyword@,
            optional_text(*argument),
        ),
{
    match argument {
        Some(text) => {
            words.push(keyword.to_owned());
            words.push(text.clone());
        },
        None => {},
    }
    assert(texts(words@) =~= texts(old(words)@) + option_words(
        keyword@,
        optional_text(*argument),
    ));
}

impl StoreCommand {
    /// The words of the request as they go over the wire.
    pub fn words(&self) -> (words: Vec<String>)
        ensures
            texts(words@) == request_words(self@),
    {
        match self {
            StoreCommand::Ping => {
                let mut words: Vec<String> = Vec::new();
                words.push("PING".to_owned());
                assert(texts(words@) =~= seq!["PING"@]);
                words
            },
            StoreCommand::Scan { cursor, pattern, key_type } => {
                let mut words: Vec<String> = Vec::new();
                words.push("SCAN".to_owned());
                words.push(decimal_string(*cursor));
                assert(texts(words@) =~= seq!["SCAN"@, decimal(*cursor as nat)]);
                push_option(&mut words, "MATCH", pattern);
                push_option(&mut words, "TYPE", key_type);
                words
            },
            StoreCommand::TypeOf(key) => unary("TYPE", key),
            StoreCommand::TimeToLive(key) => unary("TTL", key),
            StoreCommand::Get(key) => unary("GET", key),
            StoreCommand::HashGetAll(key) => unary("HGETALL", key),
            StoreCommand::ListRange { key, start, stop } => ranged("LRANGE", key, *start, *stop),
            StoreCommand::SetMembers(key) => unary("SMEMBERS", key),
            StoreCommand::SortedSetRange { key, start, stop } => ranged(
                "ZRANGE",
                key,
                *start,
                *stop,
            ),
            StoreCommand::Delete(key) => unary("DEL", key),
        }
    }
}

} // verus!
