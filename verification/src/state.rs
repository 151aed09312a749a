//! The one session that the engine holds at a time.

use redis::Client;
use vstd::prelude::*;
use crate::connection::{test_connection, ProbeOutcome};
use crate::errors::EngineError;

verus! {

/// `redis::Client`, the handle from which connections to one server are
/// made. Nothing is known of a value of it here; the engine keeps it and
/// hands it out.
#[verifier::external_type_specification]
#[verifier::external_body]
pub struct ExStoreClient(Client);

/// The state that every engine operation works on: the client of the
/// active session, or none. There is never more than one.
#[derive(Debug, Default)]
pub struct AppState {
    redis_client: Option<Client>,
}

impl AppState {
    /// The client of the active session, if there is one.
    pub closed spec fn session(&self) -> Option<Client> {
        self.redis_client
    }

    /// A state without a session.
    pub fn new() -> (state: AppState)
        ensures
            state.session() is None,
    {
        AppState { redis_client: None }
    }

    /// Replaces the session; the one held before is dropped.
    pub fn set_redis_client(&mut self, client: Option<Client>)
        ensures
            final(self).session() == client,
    {
        self.redis_client = client;
    }

    /// The client of the active session, if there is one.
    pub fn get_redis_client(&self) -> (client: Option<&Client>)
        ensures
            match client {
                Some(c) => self.session() == Some(*c),
                None => self.session() is None,
            },
    {
        self.redis_client.as_ref()
    }

    /// Ends the session. Closing without a session changes nothing.
    pub fn close(&mut self)
        ensures
            final(self).session() is None,
    {
        if self.redis_client.is_some() {
            self.redis_client = None;
        }
    }

    /// The client that an operation on the store works with. Without a
    /// session the operation cannot start.
    pub fn require_client(&self) -> (client: Result<&Client, EngineError>)
        ensures
            match client {
                Ok(c) => self.session() == Some(*c),
                Err(error) => self.session() is None && error == EngineError::SessionNotReady,
            },
    {
        match &self.redis_client {
            Some(client) => Ok(client),
            None => Err(EngineError::SessionNotReady),
        }
    }

    /// Ends a connection attempt with the outcome of the liveness probe. If
    /// the probe passed, the client becomes the session and supersedes the
    /// one held before. If it did not, the connection has failed and no
    /// session is left.
    pub fn connect(&mut self, client: Client, outcome: &ProbeOutcome) -> (connected: Result<
        (),
        EngineError,
    >)
        ensures
            outcome.passed() ==> connected is Ok && final(self).session() == Some(client),
            !outcome.passed() ==> connected == Err::<(), EngineError>(
                EngineError::ConnectionFailed,
            ) && final(self).session() is None,
    {
        let attempt = test_connection(client, outcome);
        self.install(attempt)
    }

    /// Ends a connection attempt. A verified client becomes the session and
    /// supersedes the one held before; after a failed attempt no session is
    /// left, and the failure is handed on.
    pub fn install(&mut self, attempt: Result<Client, EngineError>) -> (outcome: Result<
        (),
        EngineError,
    >)
        ensures
            match attempt {
                Ok(client) => outcome is Ok && final(self).session() == Some(client),
                Err(error) => outcome == Err::<(), EngineError>(error) && final(self).session()
                    is None,
            },
    {
        match attempt {
            Ok(client) => {
                self.redis_client = Some(client);
                Ok(())
            },
            Err(error) => {
                self.redis_client = None;
                Err(error)
            },
        }
    }
}

} // verus!
