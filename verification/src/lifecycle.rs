//! The rules that every entity manager follows when it creates, retrieves,
//! updates or deletes a record: what each answer of the store turns into.
//!
//! The functions here take the store's answer as an argument, so each rule is
//! stated, and proved, for every answer a store can give.

use vstd::prelude::*;
use crate::errors::{BaseEngineError, EngineError, ErrorInfo};

verus! {

/// Why a manager turned a request down.
#[derive(Debug, Clone, Copy, PartialEq, Eq, Structural)]
pub enum FailureKind {
    /// The store failed, or reported that it did nothing.
    Persistence,
    /// A record with the same identity exists already.
    Duplicate,
    /// No record with that identity exists.
    NotFound,
}

/// A refusal as plain data: its kind and what its error says.
pub struct Failure {
    pub kind: FailureKind,
    pub info: ErrorInfo,
}

/// A refusal, before a manager wraps it in its own error type.
#[derive(Debug)]
pub struct Rejection {
    pub kind: FailureKind,
    pub error: BaseEngineError,
}

impl View for Rejection {
    type V = Failure;

    open spec fn view(&self) -> Failure {
        Failure { kind: self.kind, info: self.error@ }
    }
}

/// A store's answer with its error reduced to what the error says.
pub open spec fn heard<T>(answer: Result<T, Box<dyn EngineError>>) -> Result<T, ErrorInfo> {
    match answer {
        Ok(value) => Ok(value),
        Err(error) => Err(error.info()),
    }
}

/// A manager's result with its error reduced to plain data.
pub open spec fn seen<T, E: View>(result: Result<T, E>) -> Result<T, E::V> {
    match result {
        Ok(value) => Ok(value),
        Err(error) => Err(error@),
    }
}

/// A failure of the store, passed on: the store's message under the
/// persistence code.
pub open spec fn store_failure(cause: ErrorInfo) -> Failure {
    Failure {
        kind: FailureKind::Persistence,
        info: ErrorInfo { message: cause.message, code: "RBX_CPE_0001"@ },
    }
}

/// The identity is taken.
pub open spec fn duplicate(noun: Seq<char>, id: Seq<char>) -> Failure {
    Failure {
        kind: FailureKind::Duplicate,
        info: ErrorInfo { message: noun + " with Id: "@ + id + " already exist"@, code: "RBX_CPE_0002"@ },
    }
}

/// Nothing is stored under the identity.
pub open spec fn not_found(noun: Seq<char>, id: Seq<char>) -> Failure {
    Failure {
        kind: FailureKind::NotFound,
        info: ErrorInfo { message: noun + " with Id: "@ + id + " not found"@, code: "RBX_CPE_0002"@ },
    }
}

/// The store refused to add the record.
pub open spec fn create_failed(noun: Seq<char>) -> Failure {
    Failure {
        kind: FailureKind::Persistence,
        info: ErrorInfo { message: "Error occurred while creating "@ + noun, code: "RBX_CPE_0003_F"@ },
    }
}

/// The store refused to replace the record.
pub open spec fn update_failed(noun: Seq<char>) -> Failure {
    Failure {
        kind: FailureKind::Persistence,
        info: ErrorInfo {
            message: "Error occurred while updating "@ + noun + " information"@,
            code: "RBX_CPE_0003_F"@,
        },
    }
}

/// The store reported that it removed nothing.
pub open spec fn not_deleted(noun: Seq<char>, id: Seq<char>) -> Failure {
    Failure {
        kind: FailureKind::Persistence,
        info: ErrorInfo {
            message: "unable to delete "@ + noun + ": "@ + crate::text::debug_text(id),
            code: "RBX_CPE_0001"@,
        },
    }
}

/// Whether creating may go on to the store's add operator after the lookup
/// answered `looked`: only when the lookup worked and found nothing.
pub open spec fn absence_outcome<D>(noun: Seq<char>, id: Seq<char>, looked: Result<Option<D>, ErrorInfo>) -> Result<(), Failure> {
    match looked {
        Err(cause) => Err(store_failure(cause)),
        Ok(Some(_)) => Err(duplicate(noun, id)),
        Ok(None) => Ok(()),
    }
}

/// What the add operator's answer turns into.
pub open spec fn added_outcome<D>(noun: Seq<char>, added: Result<D, ErrorInfo>) -> Result<D, Failure> {
    match added {
        Ok(stored) => Ok(stored),
        Err(_) => Err(create_failed(noun)),
    }
}

/// Create: look the identity up first, refuse a taken one, then add.
pub open spec fn create_outcome<D>(
    noun: Seq<char>,
    id: Seq<char>,
    looked: Result<Option<D>, ErrorInfo>,
    added: Result<D, ErrorInfo>,
) -> Result<D, Failure> {
    match absence_outcome(noun, id, looked) {
        Err(failure) => Err(failure),
        Ok(_) => added_outcome(noun, added),
    }
}

/// Retrieve: a lookup that finds nothing is a failure of its own kind.
pub open spec fn retrieve_outcome<D>(noun: Seq<char>, id: Seq<char>, looked: Result<Option<D>, ErrorInfo>) -> Result<D, Failure> {
    match looked {
        Err(cause) => Err(store_failure(cause)),
        Ok(None) => Err(not_found(noun, id)),
        Ok(Some(record)) => Ok(record),
    }
}

/// What the update operator's answer turns into.
pub open spec fn updated_outcome<D>(noun: Seq<char>, updated: Result<D, ErrorInfo>) -> Result<D, Failure> {
    match updated {
        Ok(stored) => Ok(stored),
        Err(_) => Err(update_failed(noun)),
    }
}

/// Update: the record must be there before the store is asked to replace it.
pub open spec fn update_outcome<D>(
    noun: Seq<char>,
    id: Seq<char>,
    looked: Result<Option<D>, ErrorInfo>,
    updated: Result<D, ErrorInfo>,
) -> Result<D, Failure> {
    match retrieve_outcome(noun, id, looked) {
        Err(failure) => Err(failure),
        Ok(_) => updated_outcome(noun, updated),
    }
}

/// Delete: succeeds only when the store says that it removed a record.
pub open spec fn delete_outcome(noun: Seq<char>, id: Seq<char>, removed: Result<bool, ErrorInfo>) -> Result<(), Failure> {
    match removed {
        Err(cause) => Err(store_failure(cause)),
        Ok(false) => Err(not_deleted(noun, id)),
        Ok(true) => Ok(()),
    }
}

/// What a store that keeps its records faithfully answers to a lookup: the
/// record under `id`, or nothing. `records` maps the identities in use to
/// the records stored under them.
pub open spec fn kept<D>(records: Map<Seq<char>, D>, id: Seq<char>) -> Result<Option<D>, ErrorInfo> {
    if records.contains_key(id) {
        Ok(Some(records[id]))
    } else {
        Ok(None)
    }
}

/// Creating under an identity a second time is refused as a duplicate: when
/// a create has succeeded and the store keeps what it stored, a create under
/// the same identity fails with the duplicate error, whatever the add
/// operator would answer.
pub proof fn second_create_is_duplicate<D>(
    noun: Seq<char>,
    id: Seq<char>,
    records: Map<Seq<char>, D>,
    stored: D,
    again: Result<D, ErrorInfo>,
)
    requires
        create_outcome(noun, id, kept(records, id), Ok(stored)) is Ok,
    ensures
        create_outcome(noun, id, kept(records.insert(id, stored), id), again) == Err::<D, Failure>(
            duplicate(noun, id),
        ),
{
}

/// A create is refused as a duplicate whenever the lookup finds a record,
/// and only then.
pub proof fn duplicate_exactly_when_found<D>(
    noun: Seq<char>,
    id: Seq<char>,
    looked: Result<Option<D>, ErrorInfo>,
    added: Result<D, ErrorInfo>,
)
    ensures
        (looked is Ok && looked->Ok_0 is Some) <==> (create_outcome(noun, id, looked, added) is Err
            && create_outcome(noun, id, looked, added)->Err_0.kind == FailureKind::Duplicate),
{
}

/// Retrieving an identity under which a faithful store holds nothing fails
/// with the not-found error.
pub proof fn unknown_identity_is_not_found<D>(noun: Seq<char>, id: Seq<char>, records: Map<Seq<char>, D>)
    requires
        !records.contains_key(id),
    ensures
        retrieve_outcome(noun, id, kept(records, id)) == Err::<D, Failure>(not_found(noun, id)),
{
}

/// Updating an identity under which a faithful store holds nothing fails
/// with the not-found error, whatever the update operator would answer: the
/// check for the record comes before the change.
pub proof fn update_needs_a_record<D>(
    noun: Seq<char>,
    id: Seq<char>,
    records: Map<Seq<char>, D>,
    updated: Result<D, ErrorInfo>,
)
    requires
        !records.contains_key(id),
    ensures
        update_outcome(noun, id, kept(records, id), updated) == Err::<D, Failure>(not_found(noun, id)),
{
}

/// A delete of which the store reports that nothing was removed fails with a
/// persistence error; a delete succeeds only when the store reports a
/// removal.
pub proof fn delete_of_nothing_fails(noun: Seq<char>, id: Seq<char>, removed: Result<bool, ErrorInfo>)
    ensures
        removed == Ok::<bool, ErrorInfo>(false) ==> delete_outcome(noun, id, removed) == Err::<(), Failure>(
            not_deleted(noun, id),
        ) && not_deleted(noun, id).kind == FailureKind::Persistence,
        delete_outcome(noun, id, removed) is Ok <==> removed == Ok::<bool, ErrorInfo>(true),
{
}

/// Passes a store failure on under the persistence code.
pub fn passed_on(cause: &Box<dyn EngineError>) -> (rejection: Rejection)
    ensures
        rejection@ == store_failure(cause.info()),
{
    let message = cause.get_message();
    Rejection {
        kind: FailureKind::Persistence,
        error: BaseEngineError::new((*message).clone(), "RBX_CPE_0001".to_string()),
    }
}

/// Decides, from the lookup's answer, whether a record may be created under `id`.
pub fn check_absent<D>(noun: &str, id: &str, looked: Result<Option<D>, Box<dyn EngineError>>) -> (verdict: Result<(), Rejection>)
    ensures
        seen(verdict) == absence_outcome(noun@, id@, heard(looked)),
{
    match looked {
        Err(cause) => Err(passed_on(&cause)),
        Ok(Some(_)) => {
            let mut message = String::new();
            message.push_str(noun);
            message.push_str(" with Id: ");
            message.push_str(id);
            message.push_str(" already exist");
            Err(Rejection {
                kind: FailureKind::Duplicate,
                error: BaseEngineError::new(message, "RBX_CPE_0002".to_string()),
            })
        },
        Ok(None) => Ok(()),
    }
}

/// Turns the add operator's answer into the result of a create.
pub fn created<D>(noun: &str, added: Result<D, Box<dyn EngineError>>) -> (result: Result<D, Rejection>)
    ensures
        seen(result) == added_outcome(noun@, heard(added)),
{
    match added {
        Ok(stored) => Ok(stored),
        Err(_) => {
            let mut message = String::new();
            message.push_str("Error occurred while creating ");
            message.push_str(noun);
            Err(Rejection {
                kind: FailureKind::Persistence,
                error: BaseEngineError::new(message, "RBX_CPE_0003_F".to_string()),
            })
        },
    }
}

/// Turns the lookup's answer into the result of a retrieve.
pub fn found<D>(noun: &str, id: &str, looked: Result<Option<D>, Box<dyn EngineError>>) -> (result: Result<D, Rejection>)
    ensures
        seen(result) == retrieve_outcome(noun@, id@, heard(looked)),
{
    match looked {
        Err(cause) => Err(passed_on(&cause)),
        Ok(None) => {
            let mut message = String::new();
            message.push_str(noun);
            message.push_str(" with Id: ");
            message.push_str(id);
            message.push_str(" not found");
            Err(Rejection {
                kind: FailureKind::NotFound,
                error: BaseEngineError::new(message, "RBX_CPE_0002".to_string()),
            })
        },
        Ok(Some(record)) => Ok(record),
    }
}

/// Turns the update operator's answer into the result of an update.
pub fn updated<D>(noun: &str, answer: Result<D, Box<dyn EngineError>>) -> (result: Result<D, Rejection>)
    ensures
        seen(result) == updated_outcome(noun@, heard(answer)),
{
    match answer {
        Ok(stored) => Ok(stored),
        Err(_) => {
            let mut message = String::new();
            message.push_str("Error occurred while updating ");
            message.push_str(noun);
            message.push_str(" information");
            Err(Rejection {
                kind: FailureKind::Persistence,
                error: BaseEngineError::new(message, "RBX_CPE_0003_F".to_string()),
            })
        },
    }
}

/// Turns the delete operator's answer into the result of a delete.
pub fn deleted(noun: &str, id: &str, removed: Result<bool, Box<dyn EngineError>>) -> (result: Result<(), Rejection>)
    ensures
        seen(result) == delete_outcome(noun@, id@, heard(removed)),
{
    match removed {
        Err(cause) => Err(passed_on(&cause)),
        Ok(is_deleted) => {
            if !is_deleted {
                let quoted = crate::text::debug_quoted(id);
                let mut message = String::new();
                message.push_str("unable to delete ");
                message.push_str(noun);
                message.push_str(": ");
                message.push_str(quoted.as_str());
                Err(Rejection {
                    kind: FailureKind::Persistence,
                    error: BaseEngineError::new(message, "RBX_CPE_0001".to_string()),
                })
            } else {
                Ok(())
            }
        },
    }
}

} // verus!
