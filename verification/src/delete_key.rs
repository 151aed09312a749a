//! Removal of a key.

use vstd::prelude::*;
use crate::command::{Request, StoreCommand};
use crate::errors::EngineError;

verus! {

/// The request that removes `key`.
pub fn delete_command(key: &String) -> (command: StoreCommand)
    ensures
        command@ == Request::Delete(key@),
{
    StoreCommand::Delete(key.clone())
}

/// The outcome of a removal, given the number of keys that the server
/// reports as removed: a removal that touched no key did not find it.
pub fn delete_outcome(removed: usize) -> (outcome: Result<(), EngineError>)
    ensures
        outcome == if removed == 0 {
            Err::<(), EngineError>(EngineError::NotFound)
        } else {
            Ok::<(), EngineError>(())
        },
{
    if removed == 0 {
        Err(EngineError::NotFound)
    } else {
        Ok(())
    }
}

} // verus!
