//! Opening a session: the address of the server, the client for it, and the
//! verdict on the liveness probe.

use redis::{Client, RedisError};
use vstd::prelude::*;
use vstd::string::*;
use crate::command::StoreCommand;
use crate::errors::EngineError;
use crate::text::{decimal, push_decimal, text_eq};

verus! {

/// `redis::RedisError`, the failure of a call into the store client.
/// Nothing is known of a value of it here.
#[verifier::external_type_specification]
#[verifier::external_body]
pub struct ExStoreError(RedisError);

/// The seconds within which the server has to accept the connection and
/// answer the liveness probe.
pub const CONNECT_TIMEOUT_SECONDS: u64 = 6;

/// The address of a server as a URL: the scheme, the host, a colon and the
/// port in decimal.
pub open spec fn server_url_text(address: Seq<char>, port: u16) -> Seq<char> {
    "redis://"@ + address + ":"@ + decimal(port as nat)
}

/// The URL under which the server at `address` and `port` is reached.
pub fn server_url(address: &str, port: u16) -> (url: String)
    ensures
        url@ == server_url_text(address@, port),
{
    let mut url = "redis://".to_owned();
    url.append(address);
    url.append(":");
    push_decimal(&mut url, port as u64);
    url
}

/// Whether `Client::open` accepts a URL.
pub uninterp spec fn url_accepted(url: Seq<char>) -> bool;

/// Makes a client for a URL with `redis::Client::open`, which checks the
/// URL and connects to nothing. The contract names whether the URL is
/// accepted.
#[verifier::external_body]
pub(crate) fn open_client(url: &str) -> (opened: Result<Client, RedisError>)
    ensures
        opened is Ok <==> url_accepted(url@),
{
    Client::open(url)
}

/// The client that was opened, or the failure of the connection attempt.
pub fn client_or_failure(opened: Result<Client, RedisError>) -> (client: Result<
    Client,
    EngineError,
>)
    ensures
        match opened {
            Ok(c) => client == Ok::<Client, EngineError>(c),
            Err(_) => client == Err::<Client, EngineError>(EngineError::ConnectionFailed),
        },
{
    match opened {
        Ok(client) => Ok(client),
        Err(_) => Err(EngineError::ConnectionFailed),
    }
}

/// The client for the server at `address` and `port`. It fails, as a failed
/// connection, exactly when the server's URL is not accepted.
pub fn prepare_client(address: &str, port: u16) -> (client: Result<Client, EngineError>)
    ensures
        client is Ok <==> url_accepted(server_url_text(address@, port)),
        client matches Err(error) ==> error == EngineError::ConnectionFailed,
{
    let url = server_url(address, port);
    client_or_failure(open_client(url.as_str()))
}

/// How the liveness probe ended.
#[derive(Debug, PartialEq)]
pub enum ProbeOutcome {
    /// The server answered with this text.
    Reply(String),
    /// No usable answer came: the address did not resolve, the connection
    /// was refused, the time ran out, or the reply could not be read.
    NoReply,
}

/// The reply that a live server gives to the probe.
pub open spec fn live_reply() -> Seq<char> {
    "PONG"@
}

impl ProbeOutcome {
    /// The probe passed: the server answered with the expected reply.
    pub open spec fn passed(self) -> bool {
        self matches ProbeOutcome::Reply(text) && text@ == live_reply()
    }

    /// Whether the probe passed.
    pub fn is_live(&self) -> (live: bool)
        ensures
            live == self.passed(),
    {
        match self {
            ProbeOutcome::Reply(text) => text_eq(text.as_str(), "PONG"),
            ProbeOutcome::NoReply => false,
        }
    }
}

/// The request that probes whether the server is alive.
pub fn probe_command() -> (command: StoreCommand)
    ensures
        command == StoreCommand::Ping,
{
    StoreCommand::Ping
}

/// The verdict on a connection attempt once the probe has ended: the
/// client is kept if the probe passed, and the attempt has failed if not.
pub fn test_connection(client: Client, outcome: &ProbeOutcome) -> (verified: Result<
    Client,
    EngineError,
>)
    ensures
        verified == if outcome.passed() {
            Ok::<Client, EngineError>(client)
        } else {
            Err::<Client, EngineError>(EngineError::ConnectionFailed)
        },
{
    if outcome.is_live() {
        Ok(client)
    } else {
        Err(EngineError::ConnectionFailed)
    }
}

} // verus!
