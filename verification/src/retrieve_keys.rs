//! Keyspace enumeration: the scan filter, the metadata batch of a chunk of
//! keys, and the scanner that threads the cursor from one step to the next.

use vstd::prelude::*;
use crate::command::{optional_text, texts, Request, StoreCommand};
use crate::retrieve_key::{key_type_of, KeyType};
use crate::text::text_eq;
use crate::ttl::{format_ttl_to_human_readable, ttl_text};

verus! {

/// What is shown of a key in a listing, as a mathematical object.
pub ghost struct KeyDescriptor {
    pub key: Seq<char>,
    pub key_type: Seq<char>,
    pub ttl: i64,
    pub ttl_formatted: Seq<char>,
}

/// What is shown of a key in a listing: its name, the name of its type, its
/// time to live in seconds (`-1` for a key that does not expire, `-2` for
/// one that is gone) and the display text of that time.
#[derive(Debug, PartialEq)]
pub struct KeyInfo {
    key: String,
    key_type: String,
    ttl: i64,
    ttl_formatted: String,
}

impl View for KeyInfo {
    type V = KeyDescriptor;

    closed spec fn view(&self) -> KeyDescriptor {
        KeyDescriptor {
            key: self.key@,
            key_type: self.key_type@,
            ttl: self.ttl,
            ttl_formatted: self.ttl_formatted@,
        }
    }
}

/// The descriptor of a key, given its type and time to live.
pub open spec fn descriptor(key: Seq<char>, key_type: Seq<char>, ttl: i64) -> KeyDescriptor {
    KeyDescriptor { key, key_type, ttl, ttl_formatted: ttl_text(ttl) }
}

impl KeyInfo {
    /// The display text is the one that belongs to the time to live.
    #[verifier::type_invariant]
    spec fn consistent(&self) -> bool {
        self.ttl_formatted@ == ttl_text(self.ttl)
    }

    /// Describes a key; the display text is derived from `ttl`.
    pub fn new(key: String, key_type: String, ttl: i64) -> (info: KeyInfo)
        ensures
            info@ == descriptor(key@, key_type@, ttl),
    {
        let ttl_formatted = format_ttl_to_human_readable(&ttl);
        KeyInfo { key, key_type, ttl, ttl_formatted }
    }

    /// The key's name.
    pub fn key(&self) -> (key: &String)
        ensures
            key@ == self@.key,
    {
        &self.key
    }

    /// The name of the key's type.
    pub fn key_type(&self) -> (key_type: &String)
        ensures
            key_type@ == self@.key_type,
    {
        &self.key_type
    }

    /// The shape of the key's value.
    pub fn shape(&self) -> (shape: KeyType)
        ensures
            shape == key_type_of(self@.key_type),
    {
        KeyType::from_name(self.key_type.as_str())
    }

    /// The key's time to live in seconds.
    pub fn ttl(&self) -> (ttl: i64)
        ensures
            ttl == self@.ttl,
    {
        self.ttl
    }

    /// The display text of the key's time to live, which is always the text
    /// that belongs to [`KeyInfo::ttl`].
    pub fn ttl_formatted(&self) -> (text: &String)
        ensures
            text@ == self@.ttl_formatted,
            text@ == ttl_text(self@.ttl),
    {
        proof {
            use_type_invariant(self);
        }
        &self.ttl_formatted
    }
}

impl Clone for KeyInfo {
    fn clone(&self) -> (copy: KeyInfo)
        ensures
            copy@ == self@,
    {
        proof {
            use_type_invariant(self);
        }
        KeyInfo {
            key: self.key.clone(),
            key_type: self.key_type.clone(),
            ttl: self.ttl,
            ttl_formatted: self.ttl_formatted.clone(),
        }
    }
}

/// The restrictions of a scan, as a mathematical object: `None` stands for
/// no restriction.
pub ghost struct Filter {
    pub pattern: Option<Seq<char>>,
    pub key_type: Option<Seq<char>>,
}

/// The filter that a pattern text and a type text ask for: an empty pattern
/// matches every key, and the type `*` admits every type.
pub open spec fn filter_of(pattern: Seq<char>, key_type: Seq<char>) -> Filter {
    Filter {
        pattern: if pattern.len() == 0 {
            None
        } else {
            Some(pattern)
        },
        key_type: if key_type == "*"@ {
            None
        } else {
            Some(key_type)
        },
    }
}

/// The restrictions of a scan: a glob pattern on the key and a type.
#[derive(Debug, PartialEq)]
pub struct ScanFilter {
    pattern: Option<String>,
    key_type: Option<String>,
}

impl View for ScanFilter {
    type V = Filter;

    closed spec fn view(&self) -> Filter {
        Filter { pattern: optional_text(self.pattern), key_type: optional_text(self.key_type) }
    }
}

/// A copy of an optional text.
fn copy_optional(text: &Option<String>) -> (copy: Option<String>)
    ensures
        optional_text(copy) == optional_text(*text),
{
    match text {
        Some(t) => Some(t.clone()),
        None => None,
    }
}

impl ScanFilter {
    /// The filter for a pattern and a type as the user gave them.
    pub fn new(pattern: String, key_type: String) -> (filter: ScanFilter)
        ensures
            filter@ == filter_of(pattern@, key_type@),
    {
        let pattern = if pattern.as_str().is_empty() {
            None
        } else {
            Some(pattern)
        };
        let key_type = if text_eq(key_type.as_str(), "*") {
            None
        } else {
            Some(key_type)
        };
        ScanFilter { pattern, key_type }
    }

    /// The pattern that the filter stands for when one has to be written
    /// out: `*` where the filter has none.
    pub fn match_pattern(&self) -> (pattern: String)
        ensures
            pattern@ == match self@.pattern {
                Some(p) => p,
                None => "*"@,
            },
    {
        match &self.pattern {
            Some(p) => p.clone(),
            None => "*".to_owned(),
        }
    }

    /// The scan step that resumes at `cursor`. The pattern and the type go
    /// into the request itself, so the server applies them.
    pub fn scan_at(&self, cursor: u64) -> (command: StoreCommand)
        ensures
            command@ == (Request::Scan {
                cursor,
                pattern: self@.pattern,
                key_type: self@.key_type,
            }),
    {
        StoreCommand::Scan {
            cursor,
            pattern: copy_optional(&self.pattern),
            key_type: copy_optional(&self.key_type),
        }
    }
}

/// The requests of a sequence of commands, in order.
pub open spec fn requests(commands: Seq<StoreCommand>) -> Seq<Request> {
    commands.map_values(|c: StoreCommand| c@)
}

/// The metadata batch of a chunk of keys: for each key in turn, the
/// request for its type and then the request for its time to live.
pub open spec fn metadata_plan(keys: Seq<Seq<char>>) -> Seq<Request> {
    Seq::new(
        2 * keys.len(),
        |j: int|
            if j % 2 == 0 {
                Request::TypeOf(keys[j / 2])
            } else {
                Request::TimeToLive(keys[j / 2])
            },
    )
}

/// The requests that resolve type and time to live of `keys` in one round
/// trip. For no keys there is nothing to send.
pub fn metadata_requests(keys: &Vec<String>) -> (batch: Vec<StoreCommand>)
    ensures
        requests(batch@) == metadata_plan(texts(keys@)),
        keys@.len() == 0 ==> batch@.len() == 0,
{
    let mut batch: Vec<StoreCommand> = Vec::new();
    let mut i: usize = 0;
    while i < keys.len()
        invariant
            i <= keys@.len(),
            batch@.len() == 2 * i,
            forall|k: int|
                0 <= k < i ==> (#[trigger] batch@[2 * k])@ == Request::TypeOf(keys@[k]@),
            forall|k: int|
                0 <= k < i ==> (#[trigger] batch@[2 * k + 1])@ == Request::TimeToLive(keys@[k]@),
        decreases keys@.len() - i,
    {
        batch.push(StoreCommand::TypeOf(keys[i].clone()));
        batch.push(StoreCommand::TimeToLive(keys[i].clone()));
        i = i + 1;
    }
    proof {
        let plan = metadata_plan(texts(keys@));
        assert(requests(batch@).len() == plan.len());
        assert forall|j: int| 0 <= j < plan.len() implies requests(batch@)[j] == plan[j] by {
            let k = j / 2;
            if j % 2 == 0 {
                assert(j == 2 * k);
                assert(batch@[2 * k]@ == Request::TypeOf(keys@[k]@));
            } else {
                assert(j == 2 * k + 1);
                assert(batch@[2 * k + 1]@ == Request::TimeToLive(keys@[k]@));
            }
        }
        assert(requests(batch@) =~= plan);
    }
    batch
}

/// The type names and times to live of a metadata reply, in order.
pub open spec fn metadata_of(reply: Seq<(String, i64)>) -> Seq<(Seq<char>, i64)> {
    reply.map_values(|pair: (String, i64)| (pair.0@, pair.1))
}

/// The descriptors of a chunk of keys: the key at each position goes with
/// the metadata at the same position, as far as both reach.
pub open spec fn descriptors(keys: Seq<Seq<char>>, metadata: Seq<(Seq<char>, i64)>) -> Seq<
    KeyDescriptor,
> {
    Seq::new(
        if keys.len() <= metadata.len() {
            keys.len()
        } else {
            metadata.len()
        },
        |i: int| descriptor(keys[i], metadata[i].0, metadata[i].1),
    )
}

/// What a sequence of key descriptions stands for, in order.
pub open spec fn infos(described: Seq<KeyInfo>) -> Seq<KeyDescriptor> {
    described.map_values(|info: KeyInfo| info@)
}

/// Joins a chunk of keys with the reply to its metadata batch, one type and
/// one time to live per key, in the order of the keys.
pub fn describe_keys(keys: &Vec<String>, metadata: &Vec<(String, i64)>) -> (described: Vec<
    KeyInfo,
>)
    ensures
        infos(described@) == descriptors(texts(keys@), metadata_of(metadata@)),
{
    let count: usize = if keys.len() <= metadata.len() {
        keys.len()
    } else {
        metadata.len()
    };
    let mut described: Vec<KeyInfo> = Vec::new();
    let mut i: usize = 0;
    while i < count
        invariant
            i <= count,
            count <= keys@.len(),
            count <= metadata@.len(),
            described@.len() == i,
            forall|k: int|
                0 <= k < i ==> (#[trigger] described@[k])@ == descriptor(
                    keys@[k]@,
                    metadata@[k].0@,
                    metadata@[k].1,
                ),
        decreases count - i,
    {
        let info = KeyInfo::new(keys[i].clone(), metadata[i].0.clone(), metadata[i].1);
        described.push(info);
        i = i + 1;
    }
    assert(infos(described@) =~= descriptors(texts(keys@), metadata_of(metadata@)));
    described
}

/// Where a scan stands, as a mathematical object: the cursor to resume at,
/// whether a first step has been answered, and the keys of the last chunk
/// whose metadata is still owed.
pub ghost struct ScanState {
    pub filter: Filter,
    pub cursor: u64,
    pub started: bool,
    pub pending: Seq<Seq<char>>,
}

impl ScanState {
    /// The state before the first step.
    pub open spec fn initial(filter: Filter) -> ScanState {
        ScanState { filter, cursor: 0, started: false, pending: Seq::empty() }
    }

    /// The metadata of a chunk is owed.
    pub open spec fn resolve_due(self) -> bool {
        self.pending.len() > 0
    }

    /// A scan step is due: no metadata is owed, and either no step has been
    /// answered yet or the server's last cursor was not zero.
    pub open spec fn scan_due(self) -> bool {
        self.pending.len() == 0 && (!self.started || self.cursor != 0)
    }

    /// The enumeration is complete: the server has answered a step with the
    /// cursor zero and no metadata is owed.
    pub open spec fn finished(self) -> bool {
        self.pending.len() == 0 && self.started && self.cursor == 0
    }

    /// The state after the server has answered a scan step with its next
    /// cursor and a chunk of keys. An answer that was not asked for changes
    /// nothing.
    pub open spec fn after_chunk(self, next_cursor: u64, keys: Seq<Seq<char>>) -> ScanState {
        if self.scan_due() {
            ScanState { cursor: next_cursor, started: true, pending: keys, ..self }
        } else {
            self
        }
    }

    /// The state after the metadata of the pending chunk has arrived.
    pub open spec fn after_metadata(self) -> ScanState {
        ScanState { pending: Seq::empty(), ..self }
    }

    /// What has to be sent next: the scan step at the cursor, the metadata
    /// batch of the pending chunk, or nothing once the scan is complete.
    pub open spec fn next(self) -> Seq<Request> {
        if self.resolve_due() {
            metadata_plan(self.pending)
        } else if self.scan_due() {
            seq![
                Request::Scan {
                    cursor: self.cursor,
                    pattern: self.filter.pattern,
                    key_type: self.filter.key_type,
                },
            ]
        } else {
            Seq::empty()
        }
    }
}

/// In every state exactly one of three things holds: a scan step is due,
/// metadata is owed, or the scan is complete.
pub proof fn lemma_scan_state_cases(state: ScanState)
    ensures
        state.scan_due() || state.resolve_due() || state.finished(),
        !(state.scan_due() && state.resolve_due()),
        !(state.scan_due() && state.finished()),
        !(state.resolve_due() && state.finished()),
{
}

/// The scan ends exactly when the server hands back the cursor zero: after
/// an answered step and its metadata the scan is complete if the next
/// cursor was zero, and another step is due if it was not.
pub proof fn lemma_scan_ends_at_cursor_zero(state: ScanState, next_cursor: u64, keys: Seq<Seq<char>>)
    requires
        state.scan_due(),
    ensures
        state.after_chunk(next_cursor, keys).after_metadata().finished() <==> next_cursor == 0,
        state.after_chunk(next_cursor, keys).after_metadata().scan_due() <==> next_cursor != 0,
        state.after_chunk(next_cursor, keys).after_metadata().next().len() <= 1,
{
}

/// A chunk without keys owes no metadata: nothing is sent for it.
pub proof fn lemma_empty_chunk_owes_nothing(state: ScanState, next_cursor: u64)
    requires
        state.scan_due(),
    ensures
        !state.after_chunk(next_cursor, Seq::empty()).resolve_due(),
        metadata_plan(Seq::empty()).len() == 0,
{
}

/// What the server hands back for one scan step and for the metadata batch
/// of the step's chunk.
pub ghost struct Answer {
    pub next_cursor: u64,
    pub keys: Seq<Seq<char>>,
    pub metadata: Seq<(Seq<char>, i64)>,
}

/// The descriptors that a scan yields from `state` on, chunk after chunk,
/// when the server gives `answers` in turn. Answers that come after the
/// scan is complete are not asked for and yield nothing.
pub open spec fn scan_yield(state: ScanState, answers: Seq<Answer>) -> Seq<KeyDescriptor>
    decreases answers.len(),
{
    if answers.len() == 0 || !state.scan_due() {
        Seq::empty()
    } else {
        descriptors(answers[0].keys, answers[0].metadata) + scan_yield(
            state.after_chunk(answers[0].next_cursor, answers[0].keys).after_metadata(),
            answers.drop_first(),
        )
    }
}

/// The keys that the server hands out up to and including the first answer
/// whose cursor is zero, in order.
pub open spec fn keys_handed_out(answers: Seq<Answer>) -> Seq<Seq<char>>
    decreases answers.len(),
{
    if answers.len() == 0 {
        Seq::empty()
    } else if answers[0].next_cursor == 0 {
        answers[0].keys
    } else {
        answers[0].keys + keys_handed_out(answers.drop_first())
    }
}

/// A scan describes exactly the keys that the server hands out, each once
/// and in the order in which they came, provided that every metadata reply
/// holds one type and one time to live per key of its chunk. Each
/// descriptor carries the type and the time to live that were replied for
/// its key, and the display text of that time.
pub proof fn lemma_scan_describes_every_key(state: ScanState, answers: Seq<Answer>)
    requires
        state.scan_due(),
        forall|i: int|
            0 <= i < answers.len() ==> (#[trigger] answers[i]).metadata.len()
                == answers[i].keys.len(),
    ensures
        scan_yield(state, answers).len() == keys_handed_out(answers).len(),
        forall|k: int|
            0 <= k < scan_yield(state, answers).len() ==> (#[trigger] scan_yield(
                state,
                answers,
            )[k]).key == keys_handed_out(answers)[k],
        forall|k: int|
            0 <= k < scan_yield(state, answers).len() ==> (#[trigger] scan_yield(
                state,
                answers,
            )[k]).ttl_formatted == ttl_text(scan_yield(state, answers)[k].ttl),
    decreases answers.len(),
{
    if answers.len() > 0 {
        let first = answers[0];
        let rest = answers.drop_first();
        let next = state.after_chunk(first.next_cursor, first.keys).after_metadata();
        let head = descriptors(first.keys, first.metadata);
        assert(head.len() == first.keys.len());
        assert forall|i: int| 0 <= i < rest.len() implies (#[trigger] rest[i]).metadata.len()
            == rest[i].keys.len() by {
            assert(rest[i] == answers[i + 1]);
        }
        if first.next_cursor == 0 {
            assert(!next.scan_due());
            assert(scan_yield(next, rest) =~= Seq::empty());
            assert(scan_yield(state, answers) =~= head);
        } else {
            assert(next.scan_due());
            lemma_scan_describes_every_key(next, rest);
            let tail = scan_yield(next, rest);
            assert(scan_yield(state, answers) == head + tail);
            assert forall|k: int| 0 <= k < (head + tail).len() implies (#[trigger] (head + tail)[k]).key
                == keys_handed_out(answers)[k] && (head + tail)[k].ttl_formatted == ttl_text(
                (head + tail)[k].ttl,
            ) by {
                if k >= head.len() {
                    assert((head + tail)[k] == tail[k - head.len()]);
                }
            }
        }
    }
}

/// What the scanner asks the program around it to do next.
#[derive(Debug, PartialEq)]
pub enum ScanAction {
    /// Send this scan step and hand back the next cursor and the keys.
    Scan(StoreCommand),
    /// Send this metadata batch in one round trip and hand back one type
    /// and one time to live per key.
    Resolve(Vec<StoreCommand>),
    /// Nothing: the enumeration is complete.
    Finished,
}

impl ScanAction {
    /// The requests of the action, in the order in which they are sent.
    pub open spec fn requests(self) -> Seq<Request> {
        match self {
            ScanAction::Scan(command) => seq![command@],
            ScanAction::Resolve(batch) => requests(batch@),
            ScanAction::Finished => Seq::empty(),
        }
    }
}

/// A cursor-driven enumeration of the keyspace. The program around it
/// performs each action that [`KeyScanner::next_action`] names and hands the
/// reply back; each chunk of keys is described before the next one is asked
/// for.
#[derive(Debug)]
pub struct KeyScanner {
    filter: ScanFilter,
    cursor: u64,
    started: bool,
    pending: Vec<String>,
}

impl View for KeyScanner {
    type V = ScanState;

    closed spec fn view(&self) -> ScanState {
        ScanState {
            filter: self.filter@,
            cursor: self.cursor,
            started: self.started,
            pending: texts(self.pending@),
        }
    }
}

impl KeyScanner {
    /// A scanner at the start of the keyspace.
    pub fn new(filter: ScanFilter) -> (scanner: KeyScanner)
        ensures
            scanner@ == ScanState::initial(filter@),
    {
        let scanner = KeyScanner { filter, cursor: 0, started: false, pending: Vec::new() };
        assert(texts(scanner.pending@) =~= Seq::empty());
        scanner
    }

    /// Goes back to the start of the keyspace; a pending chunk is dropped.
    pub fn restart(&mut self)
        ensures
            final(self)@ == ScanState::initial(old(self)@.filter),
    {
        self.cursor = 0;
        self.started = false;
        self.pending = Vec::new();
        assert(texts(self.pending@) =~= Seq::empty());
    }

    /// Whether the enumeration is complete.
    pub fn is_finished(&self) -> (finished: bool)
        ensures
            finished == self@.finished(),
    {
        self.pending.len() == 0 && self.started && self.cursor == 0
    }

    /// What has to be done next.
    pub fn next_action(&self) -> (action: ScanAction)
        ensures
            action.requests() == self@.next(),
            action is Resolve <==> self@.resolve_due(),
            action is Scan <==> self@.scan_due(),
            action is Finished <==> self@.finished(),
    {
        if self.pending.len() > 0 {
            ScanAction::Resolve(metadata_requests(&self.pending))
        } else if !self.started || self.cursor != 0 {
            ScanAction::Scan(self.filter.scan_at(self.cursor))
        } else {
            ScanAction::Finished
        }
    }

    /// Takes the server's answer to a scan step: the cursor to resume at and
    /// a chunk of keys. Returns whether the answer was due; one that was not
    /// is dropped.
    pub fn on_chunk(&mut self, next_cursor: u64, keys: Vec<String>) -> (accepted: bool)
        ensures
            accepted == old(self)@.scan_due(),
            final(self)@ == old(self)@.after_chunk(next_cursor, texts(keys@)),
    {
        if self.pending.len() == 0 && (!self.started || self.cursor != 0) {
            self.cursor = next_cursor;
            self.started = true;
            self.pending = keys;
            true
        } else {
            false
        }
    }

    /// Takes the reply to the metadata batch of the pending chunk and
    /// describes the chunk's keys, in their order. With no chunk pending
    /// there is nothing to describe.
    pub fn on_metadata(&mut self, metadata: &Vec<(String, i64)>) -> (described: Vec<KeyInfo>)
        ensures
            infos(described@) == descriptors(old(self)@.pending, metadata_of(metadata@)),
            final(self)@ == old(self)@.after_metadata(),
    {
        let described = describe_keys(&self.pending, metadata);
        self.pending = Vec::new();
        assert(texts(self.pending@) =~= Seq::empty());
        described
    }
}

} // verus!
