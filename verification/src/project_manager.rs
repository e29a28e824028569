//! Keeps projects in a store: one record per identity.

use vstd::prelude::*;
use crate::errors::{BaseEngineError, EngineError};
use crate::lifecycle::{Failure, FailureKind, Rejection};
use crate::persistence::{AddToStore, RemoveFromStore, RetrieveFromStore, UpdateInStore};
use crate::project::Project;
use crate::store_manager::StoreManger;

verus! {

/// How messages name the entity this manager keeps.
pub open spec fn noun() -> Seq<char> {
    "project"@
}

/// Why the manager turned a request down. Each variant carries the message
/// and the code of the failure.
#[derive(Debug)]
pub enum ProjectError {
    PersistenceError(BaseEngineError),
    DuplicateError(BaseEngineError),
    NotFoundError(BaseEngineError),
}

impl View for ProjectError {
    type V = Failure;

    open spec fn view(&self) -> Failure {
        match self {
            ProjectError::PersistenceError(error) => Failure { kind: FailureKind::Persistence, info: error@ },
            ProjectError::DuplicateError(error) => Failure { kind: FailureKind::Duplicate, info: error@ },
            ProjectError::NotFoundError(error) => Failure { kind: FailureKind::NotFound, info: error@ },
        }
    }
}

impl ProjectError {
    /// The error under the variant of the rejection's kind.
    pub fn from_rejection(rejection: Rejection) -> (error: Self)
        ensures
            error@ == rejection@,
    {
        match rejection.kind {
            FailureKind::Persistence => ProjectError::PersistenceError(rejection.error),
            FailureKind::Duplicate => ProjectError::DuplicateError(rejection.error),
            FailureKind::NotFound => ProjectError::NotFoundError(rejection.error),
        }
    }

    /// Which of the three failures this is.
    pub fn kind(&self) -> (kind: FailureKind)
        ensures
            kind == self@.kind,
    {
        match self {
            ProjectError::PersistenceError(_) => FailureKind::Persistence,
            ProjectError::DuplicateError(_) => FailureKind::Duplicate,
            ProjectError::NotFoundError(_) => FailureKind::NotFound,
        }
    }

    /// The message and code the failure carries.
    pub fn error(&self) -> (error: &BaseEngineError)
        ensures
            error@ == self@.info,
    {
        match self {
            ProjectError::PersistenceError(error) => error,
            ProjectError::DuplicateError(error) => error,
            ProjectError::NotFoundError(error) => error,
        }
    }
}

/// Creates, retrieves, updates and deletes projects in the store it is given.
/// It keeps nothing itself, and it does not lock: two requests for the same
/// identity at once are for the caller to keep apart.
pub struct ProjectManager<'store> {
    store: &'store StoreManger<Project, String>,
}

/// `result` is what creating `project` gives when the store answers the
/// lookup under `key` with `looked` and, where the lookup lets the create go
/// on, the add with `added`.
pub open spec fn create_explained(
    store: &StoreManger<Project, String>,
    project: Project,
    result: Result<Project, ProjectError>,
    key: String,
    looked: Result<Option<Project>, Box<dyn EngineError>>,
    added: Result<Project, Box<dyn EngineError>>,
) -> bool {
    &&& key@ == project@.id
    &&& store.retrieve_allows(key, looked)
    &&& crate::lifecycle::absence_outcome(noun(), project@.id, crate::lifecycle::heard(looked)) is Ok
        ==> store.add_allows(project, added)
    &&& crate::lifecycle::seen(result) == crate::lifecycle::create_outcome(
        noun(),
        project@.id,
        crate::lifecycle::heard(looked),
        crate::lifecycle::heard(added),
    )
}

/// `result` is what retrieving `project_id` gives when the store answers the
/// lookup with `looked`.
pub open spec fn retrieve_explained(
    store: &StoreManger<Project, String>,
    project_id: String,
    result: Result<Project, ProjectError>,
    looked: Result<Option<Project>, Box<dyn EngineError>>,
) -> bool {
    &&& store.retrieve_allows(project_id, looked)
    &&& crate::lifecycle::seen(result) == crate::lifecycle::retrieve_outcome(
        noun(),
        project_id@,
        crate::lifecycle::heard(looked),
    )
}

/// `result` is what updating to `project` gives when the store answers the
/// lookup under `key` with `looked` and, where a record was found, the update
/// with `updated`.
pub open spec fn update_explained(
    store: &StoreManger<Project, String>,
    project: Project,
    result: Result<Project, ProjectError>,
    key: String,
    looked: Result<Option<Project>, Box<dyn EngineError>>,
    updated: Result<Project, Box<dyn EngineError>>,
) -> bool {
    &&& key@ == project@.id
    &&& store.retrieve_allows(key, looked)
    &&& crate::lifecycle::retrieve_outcome(noun(), project@.id, crate::lifecycle::heard(looked)) is Ok
        ==> store.update_allows(project, updated)
    &&& crate::lifecycle::seen(result) == crate::lifecycle::update_outcome(
        noun(),
        project@.id,
        crate::lifecycle::heard(looked),
        crate::lifecycle::heard(updated),
    )
}

/// `result` is what deleting `project_id` gives when the store answers the
/// removal with `removed`.
pub open spec fn delete_explained(
    store: &StoreManger<Project, String>,
    project_id: String,
    result: Result<(), ProjectError>,
    removed: Result<bool, Box<dyn EngineError>>,
) -> bool {
    &&& store.delete_allows(project_id, removed)
    &&& crate::lifecycle::seen(result) == crate::lifecycle::delete_outcome(
        noun(),
        project_id@,
        crate::lifecycle::heard(removed),
    )
}

/// Creating under an identity that the store holds a record for fails with
/// the duplicate error. `records` is what the store holds; the lookup is
/// taken to answer from it.
pub proof fn create_of_a_stored_identity_is_duplicate(
    store: &StoreManger<Project, String>,
    project: Project,
    result: Result<Project, ProjectError>,
    key: String,
    looked: Result<Option<Project>, Box<dyn EngineError>>,
    added: Result<Project, Box<dyn EngineError>>,
    records: Map<Seq<char>, Project>,
)
    requires
        create_explained(store, project, result, key, looked, added),
        crate::lifecycle::heard(looked) == crate::lifecycle::kept(records, project@.id),
        records.contains_key(project@.id),
    ensures
        crate::lifecycle::seen(result) == Err::<Project, Failure>(
            crate::lifecycle::duplicate(noun(), project@.id),
        ),
{
}

/// Retrieving an identity that the store holds no record for fails with the
/// not-found error. `records` is what the store holds; the lookup is taken
/// to answer from it.
pub proof fn retrieve_of_an_unknown_identity_is_not_found(
    store: &StoreManger<Project, String>,
    project_id: String,
    result: Result<Project, ProjectError>,
    looked: Result<Option<Project>, Box<dyn EngineError>>,
    records: Map<Seq<char>, Project>,
)
    requires
        retrieve_explained(store, project_id, result, looked),
        crate::lifecycle::heard(looked) == crate::lifecycle::kept(records, project_id@),
        !records.contains_key(project_id@),
    ensures
        crate::lifecycle::seen(result) == Err::<Project, Failure>(
            crate::lifecycle::not_found(noun(), project_id@),
        ),
{
}

/// Updating an identity that the store holds no record for fails with the
/// not-found error, whatever the update operator would have answered: the
/// record is looked for before anything is changed. `records` is what the
/// store holds; the lookup is taken to answer from it.
pub proof fn update_of_an_unknown_identity_is_not_found(
    store: &StoreManger<Project, String>,
    project: Project,
    result: Result<Project, ProjectError>,
    key: String,
    looked: Result<Option<Project>, Box<dyn EngineError>>,
    updated: Result<Project, Box<dyn EngineError>>,
    records: Map<Seq<char>, Project>,
)
    requires
        update_explained(store, project, result, key, looked, updated),
        crate::lifecycle::heard(looked) == crate::lifecycle::kept(records, project@.id),
        !records.contains_key(project@.id),
    ensures
        crate::lifecycle::seen(result) == Err::<Project, Failure>(
            crate::lifecycle::not_found(noun(), project@.id),
        ),
{
}

/// A delete that the store answers with "nothing removed" fails with a
/// persistence error; it never passes for a success.
pub proof fn delete_of_nothing_is_a_persistence_error(
    store: &StoreManger<Project, String>,
    project_id: String,
    result: Result<(), ProjectError>,
    removed: Result<bool, Box<dyn EngineError>>,
)
    requires
        delete_explained(store, project_id, result, removed),
        removed is Ok,
        !removed->Ok_0,
    ensures
        result is Err,
        result->Err_0@ == crate::lifecycle::not_deleted(noun(), project_id@),
        result->Err_0@.kind == FailureKind::Persistence,
{
}

impl<'store> ProjectManager<'store> {
    /// The store this manager keeps its records in.
    pub closed spec fn store(&self) -> &StoreManger<Project, String> {
        self.store
    }

    pub fn new(store: &'store StoreManger<Project, String>) -> (manager: Self)
        ensures
            manager.store() == store,
    {
        ProjectManager { store }
    }

    /// Stores a project under an identity that is still free. The store is
    /// asked for the identity first; a failed lookup and a record found both
    /// end the call before anything is added.
    pub fn create_project(&self, project: Project) -> (result: Result<Project, ProjectError>)
        ensures
            exists|
                key: String,
                looked: Result<Option<Project>, Box<dyn EngineError>>,
                added: Result<Project, Box<dyn EngineError>>,
            | #[trigger] create_explained(self.store(), project, result, key, looked, added),
    {
        let key = project.get_id().clone();
        let looked = self.store.retrieve(key);
        let ghost looked_answer = looked;
        match crate::lifecycle::check_absent("project", project.get_id().as_str(), looked) {
            Err(rejection) => {
                let result = Err(ProjectError::from_rejection(rejection));
                proof {
                    let added = arbitrary::<Result<Project, Box<dyn EngineError>>>();
                    assert(create_explained(self.store(), project, result, key, looked_answer, added));
                }
                result
            },
            Ok(()) => {
                let added = self.store.add(project);
                let ghost added_answer = added;
                let result = match crate::lifecycle::created("project", added) {
                    Ok(stored) => Ok(stored),
                    Err(rejection) => Err(ProjectError::from_rejection(rejection)),
                };
                assert(create_explained(self.store(), project, result, key, looked_answer, added_answer));
                result
            },
        }
    }

    /// Hands back the project stored under `project_id`. Finding nothing is a
    /// failure here, told apart from a failure of the store.
    pub fn retrieve_project(&self, project_id: String) -> (result: Result<Project, ProjectError>)
        ensures
            exists|looked: Result<Option<Project>, Box<dyn EngineError>>| #[trigger]
                retrieve_explained(self.store(), project_id, result, looked),
    {
        let looked = self.store.retrieve(project_id.clone());
        let ghost looked_answer = looked;
        let result = match crate::lifecycle::found("project", project_id.as_str(), looked) {
            Ok(project) => Ok(project),
            Err(rejection) => Err(ProjectError::from_rejection(rejection)),
        };
        assert(retrieve_explained(self.store(), project_id, result, looked_answer));
        result
    }

    /// Replaces the stored project of the same identity. The record must be
    /// there: the lookup comes first, and only a record found lets the update
    /// reach the store.
    pub fn update_project(&self, project: Project) -> (result: Result<Project, ProjectError>)
        ensures
            exists|
                key: String,
                looked: Result<Option<Project>, Box<dyn EngineError>>,
                updated: Result<Project, Box<dyn EngineError>>,
            | #[trigger] update_explained(self.store(), project, result, key, looked, updated),
    {
        let key = project.get_id().clone();
        let looked = self.store.retrieve(key);
        let ghost looked_answer = looked;
        match crate::lifecycle::found("project", project.get_id().as_str(), looked) {
            Err(rejection) => {
                let result = Err(ProjectError::from_rejection(rejection));
                proof {
                    let updated = arbitrary::<Result<Project, Box<dyn EngineError>>>();
                    assert(update_explained(self.store(), project, result, key, looked_answer, updated));
                }
                result
            },
            Ok(_) => {
                let updated = self.store.update(project);
                let ghost updated_answer = updated;
                let result = match crate::lifecycle::updated("project", updated) {
                    Ok(stored) => Ok(stored),
                    Err(rejection) => Err(ProjectError::from_rejection(rejection)),
                };
                assert(update_explained(self.store(), project, result, key, looked_answer, updated_answer));
                result
            },
        }
    }

    /// Removes the project stored under `project_id`. A store that reports
    /// that it removed nothing makes the call fail.
    pub fn delete_project(&self, project_id: String) -> (result: Result<(), ProjectError>)
        ensures
            exists|removed: Result<bool, Box<dyn EngineError>>| #[trigger]
                delete_explained(self.store(), project_id, result, removed),
    {
        let removed = self.store.delete(&project_id);
        let ghost removed_answer = removed;
        let result = match crate::lifecycle::deleted("project", project_id.as_str(), removed) {
            Ok(()) => Ok(()),
            Err(rejection) => Err(ProjectError::from_rejection(rejection)),
        };
        assert(delete_explained(self.store(), project_id, result, removed_answer));
        result
    }
}

} // verus!
