//! Keeps workspaces in a store: one record per project, under the project's
//! identity.

use vstd::prelude::*;
use crate::errors::{BaseEngineError, EngineError};
use crate::lifecycle::{Failure, FailureKind, Rejection};
use crate::persistence::{AddToStore, RemoveFromStore, RetrieveFromStore, UpdateInStore};
use crate::workspace::Workspace;
use crate::store_manager::StoreManger;

verus! {

/// How messages name the entity this manager keeps.
pub open spec fn noun() -> Seq<char> {
    "Workspace"@
}

/// Why the manager turned a request down. Each variant carries the message
/// and the code of the failure.
#[derive(Debug)]
pub enum WorkspaceError {
    PersistenceError(BaseEngineError),
    DuplicateError(BaseEngineError),
    NotFoundError(BaseEngineError),
}

impl View for WorkspaceError {
    type V = Failure;

    open spec fn view(&self) -> Failure {
        match self {
            WorkspaceError::PersistenceError(error) => Failure { kind: FailureKind::Persistence, info: error@ },
            WorkspaceError::DuplicateError(error) => Failure { kind: FailureKind::Duplicate, info: error@ },
            WorkspaceError::NotFoundError(error) => Failure { kind: FailureKind::NotFound, info: error@ },
        }
    }
}

impl WorkspaceError {
    /// The error under the variant of the rejection's kind.
    pub fn from_rejection(rejection: Rejection) -> (error: Self)
        ensures
            error@ == rejection@,
    {
        match rejection.kind {
            FailureKind::Persistence => WorkspaceError::PersistenceError(rejection.error),
            FailureKind::Duplicate => WorkspaceError::DuplicateError(rejection.error),
            FailureKind::NotFound => WorkspaceError::NotFoundError(rejection.error),
        }
    }

    /// Which of the three failures this is.
    pub fn kind(&self) -> (kind: FailureKind)
        ensures
            kind == self@.kind,
    {
        match self {
            WorkspaceError::PersistenceError(_) => FailureKind::Persistence,
            WorkspaceError::DuplicateError(_) => FailureKind::Duplicate,
            WorkspaceError::NotFoundError(_) => FailureKind::NotFound,
        }
    }

    /// The message and code the failure carries.
    pub fn error(&self) -> (error: &BaseEngineError)
        ensures
            error@ == self@.info,
    {
        match self {
            WorkspaceError::PersistenceError(error) => error,
            WorkspaceError::DuplicateError(error) => error,
            WorkspaceError::NotFoundError(error) => error,
        }
    }
}

/// Creates, retrieves, updates and deletes workspaces in the store it is given.
/// It keeps nothing itself, and it does not lock: two requests for the same
/// identity at once are for the caller to keep apart.
pub struct WorkspaceManager<'store> {
    store: &'store StoreManger<Workspace, String>,
}

/// `result` is what creating `workspace` gives when the store answers the
/// lookup under `key` with `looked` and, where the lookup lets the create go
/// on, the add with `added`.
pub open spec fn create_explained(
    store: &StoreManger<Workspace, String>,
    workspace: Workspace,
    result: Result<Workspace, WorkspaceError>,
    key: String,
    looked: Result<Option<Workspace>, Box<dyn EngineError>>,
    added: Result<Workspace, Box<dyn EngineError>>,
) -> bool {
    &&& key@ == workspace@.project_id
    &&& store.retrieve_allows(key, looked)
    &&& crate::lifecycle::absence_outcome(noun(), workspace@.project_id, crate::lifecycle::heard(looked)) is Ok
        ==> store.add_allows(workspace, added)
    &&& crate::lifecycle::seen(result) == crate::lifecycle::create_outcome(
        noun(),
        workspace@.project_id,
        crate::lifecycle::heard(looked),
        crate::lifecycle::heard(added),
    )
}

/// `result` is what retrieving `workspace_id` gives when the store answers the
/// lookup with `looked`.
pub open spec fn retrieve_explained(
    store: &StoreManger<Workspace, String>,
    workspace_id: String,
    result: Result<Workspace, WorkspaceError>,
    looked: Result<Option<Workspace>, Box<dyn EngineError>>,
) -> bool {
    &&& store.retrieve_allows(workspace_id, looked)
    &&& crate::lifecycle::seen(result) == crate::lifecycle::retrieve_outcome(
        noun(),
        workspace_id@,
        crate::lifecycle::heard(looked),
    )
}

/// `result` is what updating to `workspace` gives when the store answers the
/// lookup under `key` with `looked` and, where a record was found, the update
/// with `updated`.
pub open spec fn update_explained(
    store: &StoreManger<Workspace, String>,
    workspace: Workspace,
    result: Result<Workspace, WorkspaceError>,
    key: String,
    looked: Result<Option<Workspace>, Box<dyn EngineError>>,
    updated: Result<Workspace, Box<dyn EngineError>>,
) -> bool {
    &&& key@ == workspace@.project_id
    &&& store.retrieve_allows(key, looked)
    &&& crate::lifecycle::retrieve_outcome(noun(), workspace@.project_id, crate::lifecycle::heard(looked)) is Ok
        ==> store.update_allows(workspace, updated)
    &&& crate::lifecycle::seen(result) == crate::lifecycle::update_outcome(
        noun(),
        workspace@.project_id,
        crate::lifecycle::heard(looked),
        crate::lifecycle::heard(updated),
    )
}

/// `result` is what deleting `workspace_id` gives when the store answers the
/// removal with `removed`.
pub open spec fn delete_explained(
    store: &StoreManger<Workspace, String>,
    workspace_id: String,
    result: Result<(), WorkspaceError>,
    removed: Result<bool, Box<dyn EngineError>>,
) -> bool {
    &&& store.delete_allows(workspace_id, removed)
    &&& crate::lifecycle::seen(result) == crate::lifecycle::delete_outcome(
        noun(),
        workspace_id@,
        crate::lifecycle::heard(removed),
    )
}

/// Creating under an identity that the store holds a record for fails with
/// the duplicate error. `records` is what the store holds; the lookup is
/// taken to answer from it.
pub proof fn create_of_a_stored_identity_is_duplicate(
    store: &StoreManger<Workspace, String>,
    workspace: Workspace,
    result: Result<Workspace, WorkspaceError>,
    key: String,
    looked: Result<Option<Workspace>, Box<dyn EngineError>>,
    added: Result<Workspace, Box<dyn EngineError>>,
    records: Map<Seq<char>, Workspace>,
)
    requires
        create_explained(store, workspace, result, key, looked, added),
        crate::lifecycle::heard(looked) == crate::lifecycle::kept(records, workspace@.project_id),
        records.contains_key(workspace@.project_id),
    ensures
        crate::lifecycle::seen(result) == Err::<Workspace, Failure>(
            crate::lifecycle::duplicate(noun(), workspace@.project_id),
        ),
{
}

/// Retrieving an identity that the store holds no record for fails with the
/// not-found error. `records` is what the store holds; the lookup is taken
/// to answer from it.
pub proof fn retrieve_of_an_unknown_identity_is_not_found(
    store: &StoreManger<Workspace, String>,
    workspace_id: String,
    result: Result<Workspace, WorkspaceError>,
    looked: Result<Option<Workspace>, Box<dyn EngineError>>,
    records: Map<Seq<char>, Workspace>,
)
    requires
        retrieve_explained(store, workspace_id, result, looked),
        crate::lifecycle::heard(looked) == crate::lifecycle::kept(records, workspace_id@),
        !records.contains_key(workspace_id@),
    ensures
        crate::lifecycle::seen(result) == Err::<Workspace, Failure>(
            crate::lifecycle::not_found(noun(), workspace_id@),
        ),
{
}

/// Updating an identity that the store holds no record for fails with the
/// not-found error, whatever the update operator would have answered: the
/// record is looked for before anything is changed. `records` is what the
/// store holds; the lookup is taken to answer from it.
pub proof fn update_of_an_unknown_identity_is_not_found(
    store: &StoreManger<Workspace, String>,
    workspace: Workspace,
    result: Result<Workspace, WorkspaceError>,
    key: String,
    looked: Result<Option<Workspace>, Box<dyn EngineError>>,
    updated: Result<Workspace, Box<dyn EngineError>>,
    records: Map<Seq<char>, Workspace>,
)
    requires
        update_explained(store, workspace, result, key, looked, updated),
        crate::lifecycle::heard(looked) == crate::lifecycle::kept(records, workspace@.project_id),
        !records.contains_key(workspace@.project_id),
    ensures
        crate::lifecycle::seen(result) == Err::<Workspace, Failure>(
            crate::lifecycle::not_found(noun(), workspace@.project_id),
        ),
{
}

/// A delete that the store answers with "nothing removed" fails with a
/// persistence error; it never passes for a success.
pub proof fn delete_of_nothing_is_a_persistence_error(
    store: &StoreManger<Workspace, String>,
    workspace_id: String,
    result: Result<(), WorkspaceError>,
    removed: Result<bool, Box<dyn EngineError>>,
)
    requires
        delete_explained(store, workspace_id, result, removed),
        removed is Ok,
        !removed->Ok_0,
    ensures
        result is Err,
        result->Err_0@ == crate::lifecycle::not_deleted(noun(), workspace_id@),
        result->Err_0@.kind == FailureKind::Persistence,
{
}

#[allow(non_snake_case)]
impl<'store> WorkspaceManager<'store> {
    /// The store this manager keeps its records in.
    pub closed spec fn store(&self) -> &StoreManger<Workspace, String> {
        self.store
    }

    pub fn new(store: &'store StoreManger<Workspace, String>) -> (manager: Self)
        ensures
            manager.store() == store,
    {
        WorkspaceManager { store }
    }

    /// Stores a workspace for a workspace that has none yet. The store is
    /// asked for the identity first; a failed lookup and a record found both
    /// end the call before anything is added.
    pub fn create_Workspace(&self, workspace: Workspace) -> (result: Result<Workspace, WorkspaceError>)
        ensures
            exists|
                key: String,
                looked: Result<Option<Workspace>, Box<dyn EngineError>>,
                added: Result<Workspace, Box<dyn EngineError>>,
            | #[trigger] create_explained(self.store(), workspace, result, key, looked, added),
    {
        let key = workspace.get_project_id().clone();
        let looked = self.store.retrieve(key);
        let ghost looked_answer = looked;
        match crate::lifecycle::check_absent("Workspace", workspace.get_project_id().as_str(), looked) {
            Err(rejection) => {
                let result = Err(WorkspaceError::from_rejection(rejection));
                proof {
                    let added = arbitrary::<Result<Workspace, Box<dyn EngineError>>>();
                    assert(create_explained(self.store(), workspace, result, key, looked_answer, added));
                }
                result
            },
            Ok(()) => {
                let added = self.store.add(workspace);
                let ghost added_answer = added;
                let result = match crate::lifecycle::created("Workspace", added) {
                    Ok(stored) => Ok(stored),
                    Err(rejection) => Err(WorkspaceError::from_rejection(rejection)),
                };
                assert(create_explained(self.store(), workspace, result, key, looked_answer, added_answer));
                result
            },
        }
    }

    /// Hands back the workspace stored under `workspace_id`. Finding nothing is a
    /// failure here, told apart from a failure of the store.
    pub fn retrieve_Workspace(&self, workspace_id: String) -> (result: Result<Workspace, WorkspaceError>)
        ensures
            exists|looked: Result<Option<Workspace>, Box<dyn EngineError>>| #[trigger]
                retrieve_explained(self.store(), workspace_id, result, looked),
    {
        let looked = self.store.retrieve(workspace_id.clone());
        let ghost looked_answer = looked;
        let result = match crate::lifecycle::found("Workspace", workspace_id.as_str(), looked) {
            Ok(workspace) => Ok(workspace),
            Err(rejection) => Err(WorkspaceError::from_rejection(rejection)),
        };
        assert(retrieve_explained(self.store(), workspace_id, result, looked_answer));
        result
    }

    /// Replaces the stored workspace of the same project. The record must be
    /// there: the lookup comes first, and only a record found lets the update
    /// reach the store.
    pub fn update_Workspace(&self, workspace: Workspace) -> (result: Result<Workspace, WorkspaceError>)
        ensures
            exists|
                key: String,
                looked: Result<Option<Workspace>, Box<dyn EngineError>>,
                updated: Result<Workspace, Box<dyn EngineError>>,
            | #[trigger] update_explained(self.store(), workspace, result, key, looked, updated),
    {
        let key = workspace.get_project_id().clone();
        let looked = self.store.retrieve(key);
        let ghost looked_answer = looked;
        match crate::lifecycle::found("Workspace", workspace.get_project_id().as_str(), looked) {
            Err(rejection) => {
                let result = Err(WorkspaceError::from_rejection(rejection));
                proof {
                    let updated = arbitrary::<Result<Workspace, Box<dyn EngineError>>>();
                    assert(update_explained(self.store(), workspace, result, key, looked_answer, updated));
                }
                result
            },
            Ok(_) => {
                let updated = self.store.update(workspace);
                let ghost updated_answer = updated;
                let result = match crate::lifecycle::updated("Workspace", updated) {
                    Ok(stored) => Ok(stored),
                    Err(rejection) => Err(WorkspaceError::from_rejection(rejection)),
                };
                assert(update_explained(self.store(), workspace, result, key, looked_answer, updated_answer));
                result
            },
        }
    }

    /// Removes the workspace stored under `workspace_id`. A store that reports
    /// that it removed nothing makes the call fail.
    pub fn delete_Workspace(&self, workspace_id: String) -> (result: Result<(), WorkspaceError>)
        ensures
            exists|removed: Result<bool, Box<dyn EngineError>>| #[trigger]
                delete_explained(self.store(), workspace_id, result, removed),
    {
        let removed = self.store.delete(&workspace_id);
        let ghost removed_answer = removed;
        let result = match crate::lifecycle::deleted("Workspace", workspace_id.as_str(), removed) {
            Ok(()) => Ok(()),
            Err(rejection) => Err(WorkspaceError::from_rejection(rejection)),
        };
        assert(delete_explained(self.store(), workspace_id, result, removed_answer));
        result
    }
}

} // verus!
