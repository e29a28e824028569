//! A store put together from four operator slots. Each slot is filled on its
//! own or left empty, so one entity may be read from one backend and written
//! to another, or support reading only.

use vstd::prelude::*;
use crate::errors::{BaseEngineError, EngineError, ErrorInfo};
use crate::persistence::{AddToStore, RemoveFromStore, RetrieveFromStore, UpdateInStore};

verus! {

/// What `add` reports while no add operator is configured.
pub open spec fn add_not_configured() -> ErrorInfo {
    ErrorInfo {
        message: "add functionality not configured for data type on store manager"@,
        code: "RBX_PSM_001"@,
    }
}

/// What `update` reports while no update operator is configured.
pub open spec fn update_not_configured() -> ErrorInfo {
    ErrorInfo {
        message: "update functionality not configured for data type on store manager"@,
        code: "RBX_PSM_002"@,
    }
}

/// What `retrieve` reports while no retrieve operator is configured.
pub open spec fn retrieve_not_configured() -> ErrorInfo {
    ErrorInfo {
        message: "retrieve by primary key not configured for data type on store manager"@,
        code: "RBX_PSM_003"@,
    }
}

/// What `delete` reports while no delete operator is configured.
pub open spec fn delete_not_configured() -> ErrorInfo {
    ErrorInfo {
        message: "delete functionality not configured for data type on store manager"@,
        code: "RBX_PSM_004"@,
    }
}

/// A store for records of `DataType` under keys of `PrimaryKeyType`, made of
/// up to four operators. An operation whose slot is empty fails with an error
/// of its own and does nothing else.
#[verifier::reject_recursive_types(DataType)]
#[verifier::reject_recursive_types(PrimaryKeyType)]
pub struct StoreManger<DataType, PrimaryKeyType> {
    add: Option<Box<dyn AddToStore<DataType, PrimaryKeyType>>>,
    retrieve: Option<Box<dyn RetrieveFromStore<DataType, PrimaryKeyType>>>,
    delete: Option<Box<dyn RemoveFromStore<PrimaryKeyType>>>,
    update: Option<Box<dyn UpdateInStore<DataType, PrimaryKeyType>>>,
}

impl<DataType, PrimaryKeyType> StoreManger<DataType, PrimaryKeyType> {
    /// The operator in the add slot, if one is configured.
    pub closed spec fn add_operator(&self) -> Option<Box<dyn AddToStore<DataType, PrimaryKeyType>>> {
        self.add
    }

    /// The operator in the retrieve slot, if one is configured.
    pub closed spec fn retrieve_operator(&self) -> Option<Box<dyn RetrieveFromStore<DataType, PrimaryKeyType>>> {
        self.retrieve
    }

    /// The operator in the delete slot, if one is configured.
    pub closed spec fn delete_operator(&self) -> Option<Box<dyn RemoveFromStore<PrimaryKeyType>>> {
        self.delete
    }

    /// The operator in the update slot, if one is configured.
    pub closed spec fn update_operator(&self) -> Option<Box<dyn UpdateInStore<DataType, PrimaryKeyType>>> {
        self.update
    }

    /// A store with all four slots empty.
    pub fn new() -> (store: Self)
        ensures
            store.add_operator() is None,
            store.retrieve_operator() is None,
            store.delete_operator() is None,
            store.update_operator() is None,
    {
        StoreManger { add: None, retrieve: None, delete: None, update: None }
    }

    pub fn set_add_operator(&mut self, operator: Box<dyn AddToStore<DataType, PrimaryKeyType>>)
        ensures
            final(self).add_operator() == Some(operator),
            final(self).retrieve_operator() == old(self).retrieve_operator(),
            final(self).delete_operator() == old(self).delete_operator(),
            final(self).update_operator() == old(self).update_operator(),
    {
        let slot = Some(operator);
        self.add = slot;
    }

    pub fn set_retrieve_operator(&mut self, operator: Box<dyn RetrieveFromStore<DataType, PrimaryKeyType>>)
        ensures
            final(self).retrieve_operator() == Some(operator),
            final(self).add_operator() == old(self).add_operator(),
            final(self).delete_operator() == old(self).delete_operator(),
            final(self).update_operator() == old(self).update_operator(),
    {
        let slot = Some(operator);
        self.retrieve = slot;
    }

    pub fn set_update_operator(&mut self, operator: Box<dyn UpdateInStore<DataType, PrimaryKeyType>>)
        ensures
            final(self).update_operator() == Some(operator),
            final(self).add_operator() == old(self).add_operator(),
            final(self).retrieve_operator() == old(self).retrieve_operator(),
            final(self).delete_operator() == old(self).delete_operator(),
    {
        let slot = Some(operator);
        self.update = slot;
    }

    pub fn set_delete_operator(&mut self, operator: Box<dyn RemoveFromStore<PrimaryKeyType>>)
        ensures
            final(self).delete_operator() == Some(operator),
            final(self).add_operator() == old(self).add_operator(),
            final(self).retrieve_operator() == old(self).retrieve_operator(),
            final(self).update_operator() == old(self).update_operator(),
    {
        let slot = Some(operator);
        self.delete = slot;
    }
}

/// An operation whose slot is empty has one answer, the failure that says
/// that this operation is not configured; the four failures differ in their
/// codes.
pub proof fn unconfigured_slot_fails_with_its_own_code<DataType, PrimaryKeyType>(
    store: StoreManger<DataType, PrimaryKeyType>,
    record: DataType,
    key: PrimaryKeyType,
    stored: Result<DataType, Box<dyn EngineError>>,
    looked: Result<Option<DataType>, Box<dyn EngineError>>,
    removed: Result<bool, Box<dyn EngineError>>,
)
    ensures
        store.add_operator() is None && store.add_allows(record, stored) ==> stored is Err
            && stored->Err_0.info() == add_not_configured(),
        store.update_operator() is None && store.update_allows(record, stored) ==> stored is Err
            && stored->Err_0.info() == update_not_configured(),
        store.retrieve_operator() is None && store.retrieve_allows(key, looked) ==> looked is Err
            && looked->Err_0.info() == retrieve_not_configured(),
        store.delete_operator() is None && store.delete_allows(key, removed) ==> removed is Err
            && removed->Err_0.info() == delete_not_configured(),
        add_not_configured().code != update_not_configured().code,
        add_not_configured().code != retrieve_not_configured().code,
        add_not_configured().code != delete_not_configured().code,
        update_not_configured().code != retrieve_not_configured().code,
        update_not_configured().code != delete_not_configured().code,
        retrieve_not_configured().code != delete_not_configured().code,
{
    reveal_strlit("RBX_PSM_001");
    reveal_strlit("RBX_PSM_002");
    reveal_strlit("RBX_PSM_003");
    reveal_strlit("RBX_PSM_004");
    assert("RBX_PSM_001"@[10] == '1');
    assert("RBX_PSM_002"@[10] == '2');
    assert("RBX_PSM_003"@[10] == '3');
    assert("RBX_PSM_004"@[10] == '4');
}

impl<DataType, PrimaryKeyType> AddToStore<DataType, PrimaryKeyType> for StoreManger<DataType, PrimaryKeyType> {
    /// With the slot empty the one answer is the "not configured" failure of
    /// this operation; otherwise the answers are those of the operator.
    open spec fn add_allows(&self, update: DataType, answer: Result<DataType, Box<dyn EngineError>>) -> bool {
        match self.add_operator() {
            None => answer is Err && answer->Err_0.info() == add_not_configured(),
            Some(operator) => operator.add_allows(update, answer),
        }
    }

    fn add(&self, update: DataType) -> (answer: Result<DataType, Box<dyn EngineError>>) {
        match &self.add {
            None => BaseEngineError::new(
                "add functionality not configured for data type on store manager".to_string(),
                "RBX_PSM_001".to_string(),
            ).fail(),
            Some(operator) => operator.add(update),
        }
    }
}

impl<DataType, PrimaryKeyType> UpdateInStore<DataType, PrimaryKeyType> for StoreManger<DataType, PrimaryKeyType> {
    /// With the slot empty the one answer is the "not configured" failure of
    /// this operation; otherwise the answers are those of the operator.
    open spec fn update_allows(&self, update: DataType, answer: Result<DataType, Box<dyn EngineError>>) -> bool {
        match self.update_operator() {
            None => answer is Err && answer->Err_0.info() == update_not_configured(),
            Some(operator) => operator.update_allows(update, answer),
        }
    }

    fn update(&self, update: DataType) -> (answer: Result<DataType, Box<dyn EngineError>>) {
        match &self.update {
            None => BaseEngineError::new(
                "update functionality not configured for data type on store manager".to_string(),
                "RBX_PSM_002".to_string(),
            ).fail(),
            Some(operator) => operator.update(update),
        }
    }
}

impl<DataType, PrimaryKeyType> RetrieveFromStore<DataType, PrimaryKeyType> for StoreManger<DataType, PrimaryKeyType> {
    /// With the slot empty the one answer is the "not configured" failure of
    /// this operation; otherwise the answers are those of the operator.
    open spec fn retrieve_allows(&self, id: PrimaryKeyType, answer: Result<Option<DataType>, Box<dyn EngineError>>) -> bool {
        match self.retrieve_operator() {
            None => answer is Err && answer->Err_0.info() == retrieve_not_configured(),
            Some(operator) => operator.retrieve_allows(id, answer),
        }
    }

    fn retrieve(&self, id: PrimaryKeyType) -> (answer: Result<Option<DataType>, Box<dyn EngineError>>) {
        match &self.retrieve {
            None => BaseEngineError::new(
                "retrieve by primary key not configured for data type on store manager".to_string(),
                "RBX_PSM_003".to_string(),
            ).fail(),
            Some(operator) => operator.retrieve(id),
        }
    }
}

impl<DataType, PrimaryKeyType> RemoveFromStore<PrimaryKeyType> for StoreManger<DataType, PrimaryKeyType> {
    /// With the slot empty the one answer is the "not configured" failure of
    /// this operation; otherwise the answers are those of the operator.
    open spec fn delete_allows(&self, key: PrimaryKeyType, answer: Result<bool, Box<dyn EngineError>>) -> bool {
        match self.delete_operator() {
            None => answer is Err && answer->Err_0.info() == delete_not_configured(),
            Some(operator) => operator.delete_allows(key, answer),
        }
    }

    fn delete(&self, key: &PrimaryKeyType) -> (answer: Result<bool, Box<dyn EngineError>>) {
        match &self.delete {
            None => BaseEngineError::new(
                "delete functionality not configured for data type on store manager".to_string(),
                "RBX_PSM_004".to_string(),
            ).fail(),
            Some(operator) => operator.delete(key),
        }
    }
}

} // verus!
