//! The four store operations, each a capability of its own. A backend
//! implements the ones it supports; nothing here knows how records are kept.
//!
//! Every operation comes with a relation that says which answers the
//! implementation may give to a request. Contracts built on an operator speak
//! of its answers through that relation. An implementation that states none
//! allows every answer. One that Verus does not see is taken at its word:
//! nothing holds its answers to the relation.

use vstd::prelude::*;
use crate::errors::EngineError;

verus! {

/// Stores a new record and hands back the record as stored.
pub trait AddToStore<DataType, PrimaryKeyType> {
    /// Whether `answer` is one this operator may give when asked to add `update`.
    open spec fn add_allows(&self, update: DataType, answer: Result<DataType, Box<dyn EngineError>>) -> bool {
        true
    }

    fn add(&self, update: DataType) -> (answer: Result<DataType, Box<dyn EngineError>>)
        ensures
            self.add_allows(update, answer),
    ;
}

/// Replaces a record that exists and hands back the record as stored.
pub trait UpdateInStore<DataType, PrimaryKeyType> {
    /// Whether `answer` is one this operator may give when asked to store `update`.
    open spec fn update_allows(&self, update: DataType, answer: Result<DataType, Box<dyn EngineError>>) -> bool {
        true
    }

    fn update(&self, update: DataType) -> (answer: Result<DataType, Box<dyn EngineError>>)
        ensures
            self.update_allows(update, answer),
    ;
}

/// Looks a record up by key. `Ok(None)` means that the lookup worked and found
/// nothing, which is not a failure.
pub trait RetrieveFromStore<DataType, PrimaryKeyType> {
    /// Whether `answer` is one this operator may give when asked for `id`.
    open spec fn retrieve_allows(&self, id: PrimaryKeyType, answer: Result<Option<DataType>, Box<dyn EngineError>>) -> bool {
        true
    }

    fn retrieve(&self, id: PrimaryKeyType) -> (answer: Result<Option<DataType>, Box<dyn EngineError>>)
        ensures
            self.retrieve_allows(id, answer),
    ;
}

/// Removes the record under a key. `Ok(false)` means that there was nothing to
/// remove.
pub trait RemoveFromStore<PrimaryKeyType> {
    /// Whether `answer` is one this operator may give when asked to remove `key`.
    open spec fn delete_allows(&self, key: PrimaryKeyType, answer: Result<bool, Box<dyn EngineError>>) -> bool {
        true
    }

    fn delete(&self, key: &PrimaryKeyType) -> (answer: Result<bool, Box<dyn EngineError>>)
        ensures
            self.delete_allows(*key, answer),
    ;
}

} // verus!
