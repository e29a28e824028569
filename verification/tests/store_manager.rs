use redbox_ci::errors::{BaseEngineError, EngineError};
use redbox_ci::persistence::{AddToStore, RemoveFromStore, RetrieveFromStore, UpdateInStore};
use redbox_ci::store_manager::StoreManger;

type Failure = Box<dyn EngineError>;

struct Doubling;

impl AddToStore<u32, u32> for Doubling {
    fn add(&self, update: u32) -> Result<u32, Failure> {
        Ok(update * 2)
    }
}

impl UpdateInStore<u32, u32> for Doubling {
    fn update(&self, update: u32) -> Result<u32, Failure> {
        Ok(update * 2 + 1)
    }
}

impl RetrieveFromStore<u32, u32> for Doubling {
    fn retrieve(&self, id: u32) -> Result<Option<u32>, Failure> {
        if id == 0 {
            Ok(None)
        } else {
            Ok(Some(id * 2))
        }
    }
}

impl RemoveFromStore<u32> for Doubling {
    fn delete(&self, key: &u32) -> Result<bool, Failure> {
        Ok(*key != 0)
    }
}

struct Broken;

impl AddToStore<u32, u32> for Broken {
    fn add(&self, _update: u32) -> Result<u32, Failure> {
        BaseEngineError::new("disk full".to_string(), "X_1".to_string()).fail()
    }
}

fn said(error: &Failure) -> (String, String) {
    ((*error.get_message()).clone(), (*error.get_error_code()).clone())
}

#[test]
fn base_error_keeps_message_and_code() {
    let error = BaseEngineError::new("something broke".to_string(), "RBX_T_1".to_string());
    assert_eq!(*error.get_message(), "something broke");
    assert_eq!(*error.get_error_code(), "RBX_T_1");
}

#[test]
fn failing_with_an_error_keeps_what_it_says() {
    let failure: Result<u8, Failure> =
        BaseEngineError::new("m".to_string(), "c".to_string()).fail();
    match failure {
        Ok(_) => panic!("a failure was expected"),
        Err(error) => assert_eq!(said(&error), ("m".to_string(), "c".to_string())),
    }
}

#[test]
fn add_without_operator_reports_its_own_code() {
    let store: StoreManger<u32, u32> = StoreManger::new();
    let error = store.add(1).err().expect("add is not configured");
    assert_eq!(
        said(&error),
        (
            "add functionality not configured for data type on store manager".to_string(),
            "RBX_PSM_001".to_string()
        )
    );
}

#[test]
fn update_without_operator_reports_its_own_code() {
    let store: StoreManger<u32, u32> = StoreManger::new();
    let error = store.update(1).err().expect("update is not configured");
    assert_eq!(
        said(&error),
        (
            "update functionality not configured for data type on store manager".to_string(),
            "RBX_PSM_002".to_string()
        )
    );
}

#[test]
fn retrieve_without_operator_reports_its_own_code() {
    let store: StoreManger<u32, u32> = StoreManger::new();
    let error = store.retrieve(1).err().expect("retrieve is not configured");
    assert_eq!(
        said(&error),
        (
            "retrieve by primary key not configured for data type on store manager".to_string(),
            "RBX_PSM_003".to_string()
        )
    );
}

#[test]
fn delete_without_operator_reports_its_own_code() {
    let store: StoreManger<u32, u32> = StoreManger::new();
    let error = store.delete(&1).err().expect("delete is not configured");
    assert_eq!(
        said(&error),
        (
            "delete functionality not configured for data type on store manager".to_string(),
            "RBX_PSM_004".to_string()
        )
    );
}

#[test]
fn configured_operators_are_asked() {
    let mut store: StoreManger<u32, u32> = StoreManger::new();
    store.set_add_operator(Box::new(Doubling));
    store.set_update_operator(Box::new(Doubling));
    store.set_retrieve_operator(Box::new(Doubling));
    store.set_delete_operator(Box::new(Doubling));
    assert_eq!(store.add(4).ok(), Some(8));
    assert_eq!(store.update(4).ok(), Some(9));
    assert_eq!(store.retrieve(4).ok(), Some(Some(8)));
    assert_eq!(store.retrieve(0).ok(), Some(None));
    assert_eq!(store.delete(&4).ok(), Some(true));
    assert_eq!(store.delete(&0).ok(), Some(false));
}

#[test]
fn slots_are_configured_one_by_one() {
    let mut store: StoreManger<u32, u32> = StoreManger::new();
    store.set_retrieve_operator(Box::new(Doubling));
    assert_eq!(store.retrieve(3).ok(), Some(Some(6)));
    let error = store.delete(&3).err().expect("delete is still not configured");
    assert_eq!(*error.get_error_code(), "RBX_PSM_004");
    let error = store.add(3).err().expect("add is still not configured");
    assert_eq!(*error.get_error_code(), "RBX_PSM_001");
}

#[test]
fn a_later_operator_replaces_the_earlier_one() {
    let mut store: StoreManger<u32, u32> = StoreManger::new();
    store.set_add_operator(Box::new(Doubling));
    store.set_add_operator(Box::new(Broken));
    let error = store.add(3).err().expect("the second operator fails");
    assert_eq!(said(&error), ("disk full".to_string(), "X_1".to_string()));
}
