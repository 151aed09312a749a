//! Session and value-translation engine for browsing one key-value store
//! server at a time.
//!
//! The library decides; the program around it performs the network and
//! storage work. Every operation that needs the server is split into the
//! request the engine wants issued and the interpretation of the reply.

pub mod command;
pub mod connection;
pub mod delete_key;
pub mod errors;
pub mod json;
pub mod registry;
pub mod retrieve_key;
pub mod retrieve_keys;
pub mod state;
pub mod text;
pub mod translate;
pub mod ttl;
pub mod wire;
