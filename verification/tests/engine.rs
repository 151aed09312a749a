use redis_browser::command::StoreCommand;
use redis_browser::connection::{prepare_client, test_connection, ProbeOutcome};
use redis_browser::delete_key::{delete_command, delete_outcome};
use redis_browser::errors::EngineError;
use redis_browser::json::{JsonNumber, JsonValue};
use redis_browser::retrieve_key::{KeyInfo as KeyDetails, ReadReply, RetrieveKeyResponse};
use redis_browser::retrieve_keys::{KeyInfo, KeyScanner, ScanAction, ScanFilter};
use redis_browser::state::AppState;
use redis_browser::wire::WireValue;

/// What a key of the simulated store holds.
#[derive(Clone)]
enum Stored {
    Text(&'static str),
    Hash(Vec<(&'static str, &'static str)>),
    List(Vec<&'static str>),
    Members(Vec<&'static str>),
    Ranked(Vec<&'static str>),
    Stream,
}

/// A store that lives in memory and answers the words of the engine's
/// requests the way the server does. It hands out `chunk` slots per scan
/// step.
struct Store {
    keys: Vec<(&'static str, Stored, i64)>,
    chunk: usize,
    round_trips: usize,
}

fn glob(pattern: &[u8], key: &[u8]) -> bool {
    match (pattern.first(), key.first()) {
        (None, None) => true,
        (Some(b'*'), _) => glob(&pattern[1..], key) || (!key.is_empty() && glob(pattern, &key[1..])),
        (Some(b'?'), Some(_)) => glob(&pattern[1..], &key[1..]),
        (Some(p), Some(k)) if p == k => glob(&pattern[1..], &key[1..]),
        _ => false,
    }
}

impl Store {
    fn new(keys: Vec<(&'static str, Stored, i64)>, chunk: usize) -> Store {
        Store { keys, chunk, round_trips: 0 }
    }

    fn shape_name(stored: &Stored) -> &'static str {
        match stored {
            Stored::Text(_) => "string",
            Stored::Hash(_) => "hash",
            Stored::List(_) => "list",
            Stored::Members(_) => "set",
            Stored::Ranked(_) => "zset",
            Stored::Stream => "stream",
        }
    }

    fn find(&self, key: &str) -> Option<&(&'static str, Stored, i64)> {
        self.keys.iter().find(|entry| entry.0 == key)
    }

    fn scan(&mut self, words: &[String]) -> (u64, Vec<String>) {
        self.round_trips += 1;
        assert_eq!(words[0], "SCAN");
        let cursor: usize = words[1].parse().unwrap();
        let mut pattern: Option<&str> = None;
        let mut key_type: Option<&str> = None;
        let mut at = 2;
        while at < words.len() {
            match words[at].as_str() {
                "MATCH" => pattern = Some(words[at + 1].as_str()),
                "TYPE" => key_type = Some(words[at + 1].as_str()),
                other => panic!("unknown scan option {}", other),
            }
            at += 2;
        }
        let end = (cursor + self.chunk).min(self.keys.len());
        let keys = self.keys[cursor..end]
            .iter()
            .filter(|entry| pattern.map_or(true, |p| glob(p.as_bytes(), entry.0.as_bytes())))
            .filter(|entry| key_type.map_or(true, |t| Store::shape_name(&entry.1) == t))
            .map(|entry| entry.0.to_string())
            .collect();
        let next = if end == self.keys.len() { 0 } else { end as u64 };
        (next, keys)
    }

    fn metadata(&mut self, batch: &[StoreCommand]) -> Vec<(String, i64)> {
        self.round_trips += 1;
        assert_eq!(batch.len() % 2, 0);
        let mut reply = Vec::new();
        for pair in batch.chunks(2) {
            let type_words = pair[0].words();
            let ttl_words = pair[1].words();
            assert_eq!(type_words[0], "TYPE");
            assert_eq!(ttl_words[0], "TTL");
            assert_eq!(type_words[1], ttl_words[1]);
            match self.find(&type_words[1]) {
                Some(entry) => reply.push((Store::shape_name(&entry.1).to_string(), entry.2)),
                None => reply.push(("none".to_string(), -2)),
            }
        }
        reply
    }

    fn bulk(text: &str) -> WireValue {
        WireValue::BulkBytes(text.as_bytes().to_vec())
    }

    fn read(&mut self, command: &StoreCommand) -> ReadReply {
        self.round_trips += 1;
        let words = command.words();
        let stored = self.find(&words[1]).map(|entry| entry.1.clone());
        match (words[0].as_str(), stored) {
            ("GET", Some(Stored::Text(text))) => ReadReply::Value(Store::bulk(text)),
            ("HGETALL", Some(Stored::Hash(fields))) => ReadReply::Fields(
                fields
                    .iter()
                    .map(|(name, value)| (name.to_string(), Store::bulk(value)))
                    .collect(),
            ),
            ("LRANGE", Some(Stored::List(items))) => {
                assert_eq!(&words[2..], ["0", "-1"]);
                ReadReply::Value(WireValue::Array(items.iter().map(|i| Store::bulk(i)).collect()))
            }
            ("SMEMBERS", Some(Stored::Members(items))) => {
                ReadReply::Value(WireValue::Array(items.iter().map(|i| Store::bulk(i)).collect()))
            }
            ("ZRANGE", Some(Stored::Ranked(items))) => {
                assert_eq!(&words[2..], ["0", "-1"]);
                ReadReply::Value(WireValue::Array(items.iter().map(|i| Store::bulk(i)).collect()))
            }
            (_, None) => ReadReply::Value(WireValue::Nil),
            (name, Some(_)) => panic!("{} on a key of another type", name),
        }
    }

    fn delete(&mut self, command: &StoreCommand) -> usize {
        self.round_trips += 1;
        let words = command.words();
        assert_eq!(words[0], "DEL");
        let before = self.keys.len();
        self.keys.retain(|entry| entry.0 != words[1]);
        before - self.keys.len()
    }
}

fn connected() -> AppState {
    let mut state = AppState::new();
    let client = prepare_client("localhost", 6379).unwrap();
    let verified = test_connection(client, &ProbeOutcome::Reply("PONG".to_string()));
    state.install(verified).unwrap();
    state
}

fn retrieve_keys(
    state: &AppState,
    store: &mut Store,
    pattern: &str,
    key_type: &str,
) -> Result<Vec<KeyInfo>, EngineError> {
    state.require_client()?;
    let mut scanner = KeyScanner::new(ScanFilter::new(pattern.to_string(), key_type.to_string()));
    let mut described = Vec::new();
    loop {
        match scanner.next_action() {
            ScanAction::Scan(command) => {
                let (cursor, keys) = store.scan(&command.words());
                assert!(scanner.on_chunk(cursor, keys));
            }
            ScanAction::Resolve(batch) => {
                let metadata = store.metadata(&batch);
                described.extend(scanner.on_metadata(&metadata));
            }
            ScanAction::Finished => break,
        }
    }
    assert!(scanner.is_finished());
    Ok(described)
}

fn retrieve_key(
    state: &AppState,
    store: &mut Store,
    key: &str,
) -> Result<RetrieveKeyResponse, EngineError> {
    state.require_client()?;
    let key = key.to_string();
    let metadata = store.metadata(&KeyDetails::requests(&key));
    let details = KeyDetails {
        key,
        key_type: metadata[0].0.clone(),
        ttl: metadata[0].1 as isize,
    };
    let command = details.plan_read()?;
    let reply = store.read(&command);
    Ok(RetrieveKeyResponse::new(details, &reply))
}

fn delete_key(state: &AppState, store: &mut Store, key: &str) -> Result<(), EngineError> {
    state.require_client()?;
    let removed = store.delete(&delete_command(&key.to_string()));
    delete_outcome(removed)
}

fn text(s: &str) -> JsonValue {
    JsonValue::String(s.to_string())
}

#[test]
fn test_retrieve_keys() {
    let state = connected();
    let mut store = Store::new(
        vec![
            ("key1", Stored::Text("value1"), -1),
            ("key2", Stored::Text("value2"), -1),
            ("key3", Stored::Text("value3"), 5000),
        ],
        10,
    );
    let keys = retrieve_keys(&state, &mut store, "", "*").unwrap();
    assert_eq!(keys.len(), 3);

    let key1 = keys.iter().find(|k| k.key() == "key1").unwrap();
    assert_eq!(key1.key_type(), "string");
    assert_eq!(key1.ttl(), -1);
    assert_eq!(key1.ttl_formatted(), "-");

    let key2 = keys.iter().find(|k| k.key() == "key2").unwrap();
    assert_eq!(key2.key_type(), "string");
    assert_eq!(key2.ttl(), -1);

    let key3 = keys.iter().find(|k| k.key() == "key3").unwrap();
    assert_eq!(key3.key_type(), "string");
    assert!(key3.ttl() > 0);
    assert_eq!(key3.ttl_formatted(), "1h");
}

#[test]
fn test_retrieve_keys_with_pattern() {
    let state = connected();
    let mut store = Store::new(
        vec![
            ("apple", Stored::Text("fruit"), -1),
            ("banana", Stored::Text("fruit"), -1),
            ("carrot", Stored::Text("vegetable"), -1),
        ],
        10,
    );
    let keys = retrieve_keys(&state, &mut store, "a*", "*").unwrap();
    assert_eq!(keys.len(), 1);

    let key_names = keys.iter().map(|k| k.key().clone()).collect::<Vec<String>>();
    assert!(key_names.contains(&"apple".to_string()));
}

#[test]
fn test_retrieve_keys_with_type() {
    let state = connected();
    let mut store = Store::new(
        vec![
            ("apple", Stored::Text("fruit"), -1),
            ("banana", Stored::Text("fruit"), -1),
            ("carrot", Stored::Text("vegetable"), -1),
        ],
        10,
    );
    let keys = retrieve_keys(&state, &mut store, "", "string").unwrap();
    assert_eq!(keys.len(), 3);

    let keys = retrieve_keys(&state, &mut store, "", "hash").unwrap();
    assert_eq!(keys.len(), 0);
}

#[test]
fn scan_goes_chunk_by_chunk_until_the_cursor_is_zero() {
    let state = connected();
    let names = ["k0", "k1", "k2", "k3", "k4", "k5", "k6"];
    let mut store = Store::new(
        names.iter().map(|name| (*name, Stored::Text("v"), 90)).collect(),
        3,
    );
    let keys = retrieve_keys(&state, &mut store, "", "*").unwrap();
    let found: Vec<&str> = keys.iter().map(|k| k.key().as_str()).collect();
    assert_eq!(found, names);
    assert!(keys.iter().all(|k| k.ttl_formatted() == "1min"));
    // Three scan steps and one metadata round trip for each of the chunks.
    assert_eq!(store.round_trips, 6);
}

#[test]
fn scan_of_an_empty_keyspace_gives_nothing_and_resolves_nothing() {
    let state = connected();
    let mut store = Store::new(Vec::new(), 10);
    let keys = retrieve_keys(&state, &mut store, "", "*").unwrap();
    assert!(keys.is_empty());
    assert_eq!(store.round_trips, 1);

    let mut sparse = Store::new(
        vec![
            ("x1", Stored::Text("v"), -1),
            ("x2", Stored::Text("v"), -1),
            ("y1", Stored::Text("v"), -1),
        ],
        1,
    );
    let keys = retrieve_keys(&state, &mut sparse, "y*", "*").unwrap();
    assert_eq!(keys.len(), 1);
    // Three scan steps, and metadata only for the chunk that held a key.
    assert_eq!(sparse.round_trips, 4);
}

#[test]
fn key_that_vanished_before_its_metadata_came_does_not_abort_the_scan() {
    let mut scanner = KeyScanner::new(ScanFilter::new(String::new(), "*".to_string()));
    assert!(scanner.on_chunk(0, vec!["gone".to_string(), "here".to_string()]));
    let described = scanner.on_metadata(&vec![
        ("none".to_string(), -2),
        ("list".to_string(), 30),
    ]);
    assert_eq!(described.len(), 2);
    assert_eq!(described[0].key(), "gone");
    assert_eq!(described[0].key_type(), "none");
    assert_eq!(described[0].ttl(), -2);
    assert_eq!(described[1].key(), "here");
    assert_eq!(described[1].ttl_formatted(), "30s");
    assert!(scanner.is_finished());
}

#[test]
fn scanner_drops_an_answer_that_was_not_due() {
    let mut scanner = KeyScanner::new(ScanFilter::new("a*".to_string(), "hash".to_string()));
    assert_eq!(
        scanner.next_action(),
        ScanAction::Scan(StoreCommand::Scan {
            cursor: 0,
            pattern: Some("a*".to_string()),
            key_type: Some("hash".to_string()),
        })
    );
    assert!(scanner.on_chunk(17, vec!["a1".to_string()]));
    // Metadata is owed now: another chunk is not taken.
    assert!(!scanner.on_chunk(23, vec!["a2".to_string()]));
    assert_eq!(
        scanner.next_action(),
        ScanAction::Resolve(vec![
            StoreCommand::TypeOf("a1".to_string()),
            StoreCommand::TimeToLive("a1".to_string()),
        ])
    );
    let described = scanner.on_metadata(&vec![("hash".to_string(), -1)]);
    assert_eq!(described.len(), 1);
    assert_eq!(
        scanner.next_action(),
        ScanAction::Scan(StoreCommand::Scan {
            cursor: 17,
            pattern: Some("a*".to_string()),
            key_type: Some("hash".to_string()),
        })
    );
    assert!(scanner.on_chunk(0, Vec::new()));
    assert_eq!(scanner.next_action(), ScanAction::Finished);
    assert!(!scanner.on_chunk(5, vec!["late".to_string()]));
    assert!(scanner.on_metadata(&vec![("hash".to_string(), -1)]).is_empty());
    assert!(scanner.is_finished());

    scanner.restart();
    assert!(!scanner.is_finished());
    assert_eq!(
        scanner.next_action(),
        ScanAction::Scan(StoreCommand::Scan {
            cursor: 0,
            pattern: Some("a*".to_string()),
            key_type: Some("hash".to_string()),
        })
    );
}

#[test]
fn test_retrieve_string_key() {
    let state = connected();
    let mut store = Store::new(vec![("test_string", Stored::Text("hello world"), -1)], 10);
    let result = retrieve_key(&state, &mut store, "test_string").unwrap();

    assert_eq!(result.details.key, "test_string");
    assert_eq!(result.details.key_type, "string");
    assert_eq!(result.details.ttl, -1);
    assert_eq!(result.content, text("hello world"));
}

#[test]
fn test_retrieve_hash_key() {
    let state = connected();
    let mut store = Store::new(
        vec![(
            "test_hash",
            Stored::Hash(vec![("field1", "value1"), ("field2", "value2")]),
            -1,
        )],
        10,
    );
    let result = retrieve_key(&state, &mut store, "test_hash").unwrap();

    assert_eq!(result.details.key, "test_hash");
    assert_eq!(result.details.key_type, "hash");
    assert_eq!(result.details.ttl, -1);

    assert_eq!(result.content.get(&"field1".to_string()).unwrap(), &text("value1"));
    assert_eq!(result.content.get(&"field2".to_string()).unwrap(), &text("value2"));

    let mut reversed = Store::new(
        vec![(
            "test_hash",
            Stored::Hash(vec![("field2", "value2"), ("field1", "value1")]),
            -1,
        )],
        10,
    );
    let other = retrieve_key(&state, &mut reversed, "test_hash").unwrap();
    assert_eq!(other.content.get(&"field1".to_string()).unwrap(), &text("value1"));
    assert_eq!(other.content.get(&"field2".to_string()).unwrap(), &text("value2"));
    assert_eq!(other.content.get(&"field3".to_string()), None);
}

#[test]
fn test_retrieve_list_key() {
    let state = connected();
    let mut store = Store::new(
        vec![("test_list", Stored::List(vec!["item1", "item2", "item3"]), -1)],
        10,
    );
    let result = retrieve_key(&state, &mut store, "test_list").unwrap();

    assert_eq!(result.details.key, "test_list");
    assert_eq!(result.details.key_type, "list");
    assert_eq!(result.details.ttl, -1);
    assert_eq!(
        result.content,
        JsonValue::Array(vec![text("item1"), text("item2"), text("item3")])
    );
}

#[test]
fn test_retrieve_set_key() {
    let state = connected();
    let mut store = Store::new(
        vec![("test_set", Stored::Members(vec!["member2", "member1", "member3"]), -1)],
        10,
    );
    let result = retrieve_key(&state, &mut store, "test_set").unwrap();

    assert_eq!(result.details.key, "test_set");
    assert_eq!(result.details.key_type, "set");
    assert_eq!(result.details.ttl, -1);

    let members = match result.content {
        JsonValue::Array(members) => members,
        other => panic!("not an array: {:?}", other),
    };
    assert_eq!(members.len(), 3);
    assert!(members.contains(&text("member1")));
    assert!(members.contains(&text("member2")));
    assert!(members.contains(&text("member3")));
}

#[test]
fn test_retrieve_zset_key() {
    let state = connected();
    let mut store = Store::new(
        vec![("test_zset", Stored::Ranked(vec!["member1", "member2", "member3"]), -1)],
        10,
    );
    let result = retrieve_key(&state, &mut store, "test_zset").unwrap();

    assert_eq!(result.details.key, "test_zset");
    assert_eq!(result.details.key_type, "zset");
    assert_eq!(result.details.ttl, -1);
    assert_eq!(
        result.content,
        JsonValue::Array(vec![text("member1"), text("member2"), text("member3")])
    );
}

#[test]
fn test_retrieve_key_with_ttl() {
    let state = connected();
    let mut store = Store::new(vec![("test_ttl", Stored::Text("expiring value"), 4999)], 10);
    let result = retrieve_key(&state, &mut store, "test_ttl").unwrap();

    assert_eq!(result.details.key, "test_ttl");
    assert_eq!(result.details.key_type, "string");
    assert!(result.details.ttl > 0);
    assert!(result.details.ttl <= 5000);
    assert_eq!(result.content, text("expiring value"));
}

#[test]
fn test_retrieve_key_no_redis_client() {
    let state = AppState::new();
    let mut store = Store::new(vec![("any_key", Stored::Text("v"), -1)], 10);
    let result = retrieve_key(&state, &mut store, "any_key");

    assert!(result.is_err());
    assert_eq!(result.err().unwrap(), EngineError::SessionNotReady);
    assert_eq!(store.round_trips, 0);
    assert_eq!(
        retrieve_keys(&state, &mut store, "", "*").err().unwrap(),
        EngineError::SessionNotReady
    );
    assert_eq!(
        delete_key(&state, &mut store, "any_key").err().unwrap(),
        EngineError::SessionNotReady
    );
}

#[test]
fn stored_text_that_is_json_is_shown_as_json() {
    let state = connected();
    let mut store = Store::new(
        vec![
            ("number", Stored::Text("123"), -1),
            ("object", Stored::Text("{\"a\":1}"), -1),
        ],
        10,
    );
    assert_eq!(
        retrieve_key(&state, &mut store, "number").unwrap().content,
        JsonValue::Number(JsonNumber::PosInt(123))
    );
    assert_eq!(
        retrieve_key(&state, &mut store, "object").unwrap().content,
        JsonValue::Object(vec![("a".to_string(), JsonValue::Number(JsonNumber::PosInt(1)))])
    );
}

#[test]
fn key_of_a_type_without_read_path_is_not_read() {
    let state = connected();
    let mut store = Store::new(vec![("events", Stored::Stream, -1)], 10);
    let result = retrieve_key(&state, &mut store, "events");
    assert_eq!(result.err().unwrap(), EngineError::UnsupportedType);
    // Only the metadata was asked for.
    assert_eq!(store.round_trips, 1);
}

#[test]
fn test_delete_key_with_existing_key() {
    let state = connected();
    let mut store = Store::new(vec![("correct_key", Stored::Text("hello world"), -1)], 10);
    let result = delete_key(&state, &mut store, "correct_key");
    assert!(result.is_ok());

    let fetched = retrieve_key(&state, &mut store, "correct_key");
    assert_eq!(fetched.err().unwrap(), EngineError::NotFound);
}

#[test]
fn test_delete_key_with_nonexistent_key() {
    let state = connected();
    let mut store = Store::new(vec![("test_key", Stored::Text("hello world"), -1)], 10);
    let result = delete_key(&state, &mut store, "invalid_key");
    assert!(result.is_err());
    assert_eq!(result.err().unwrap(), EngineError::NotFound);
    assert_eq!(store.keys.len(), 1);
}

#[test]
fn delete_outcome_counts_removed_keys() {
    assert_eq!(delete_outcome(0), Err(EngineError::NotFound));
    assert_eq!(delete_outcome(1), Ok(()));
    assert_eq!(delete_outcome(2), Ok(()));
    assert_eq!(delete_outcome(usize::MAX), Ok(()));
}
