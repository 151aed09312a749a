//! The failures that the engine and the program around it report.

use vstd::prelude::*;
use crate::json::{Json, JsonNumber, JsonValue};
use crate::text::{decimal, decimal_string};

verus! {

/// A failure of an engine operation, by kind.
#[derive(Debug, Clone, Copy, PartialEq, Eq, Structural)]
pub enum EngineError {
    /// The server could not be reached, refused the connection, or did not
    /// answer the liveness probe in time or as expected.
    ConnectionFailed,
    /// An operation was attempted while no session was active.
    SessionNotReady,
    /// The key's type has no read path.
    UnsupportedType,
    /// The key does not exist.
    NotFound,
}

/// A failure as the presentation layer receives it: a numeric code.
#[derive(Debug, Clone, Copy, PartialEq, Eq, Structural)]
pub enum AppError {
    /// An interaction with the key-value store failed.
    RedisFailed,
    /// The registry store is not ready.
    DbNotReady,
    /// A query on the registry store failed.
    DbQueryFailed,
}

impl AppError {
    /// The code of each failure.
    pub open spec fn code_spec(self) -> u16 {
        match self {
            AppError::RedisFailed => 910,
            AppError::DbNotReady => 900,
            AppError::DbQueryFailed => 901,
        }
    }

    /// The code under which the failure is reported.
    pub fn code(&self) -> (code: u16)
        ensures
            code == self.code_spec(),
    {
        match self {
            AppError::RedisFailed => 910,
            AppError::DbNotReady => 900,
            AppError::DbQueryFailed => 901,
        }
    }

    /// The failure as text: its code in decimal.
    pub fn to_string(&self) -> (text: String)
        ensures
            text@ == decimal(self.code_spec() as nat),
    {
        decimal_string(self.code() as u64)
    }

    /// The failure as it is serialized: its code as a JSON number.
    pub fn to_json(&self) -> (value: JsonValue)
        ensures
            value@ == Json::Number(JsonNumber::PosInt(self.code_spec() as u64)),
            value.well_formed(),
    {
        JsonValue::Number(JsonNumber::PosInt(self.code() as u64))
    }

    /// How an engine failure is reported: every kind goes under the code of
    /// a failed interaction with the store.
    pub fn from_engine(error: EngineError) -> (reported: AppError)
        ensures
            reported == AppError::RedisFailed,
    {
        AppError::RedisFailed
    }
}

} // verus!
