//! The error contract shared by every component: a message for people and a
//! stable code for programs.

use vstd::prelude::*;

verus! {

/// What an error says, as plain text: the model of every [`EngineError`].
pub struct ErrorInfo {
    pub message: Seq<char>,
    pub code: Seq<char>,
}

/// An error of the engine. Backends and integrations implement it for their
/// own failures; the two getters read the text that `info` names. Of an
/// implementation that Verus does not see, this is taken on trust: that each
/// getter gives the same text whenever it is asked.
pub trait EngineError {
    /// The message and code this error carries. An implementation that does
    /// not say what they are leaves them unspecified.
    open spec fn info(&self) -> ErrorInfo {
        arbitrary()
    }

    fn get_message(&self) -> (message: Box<&String>)
        ensures
            message@ == self.info().message,
    ;

    fn get_error_code(&self) -> (code: Box<&String>)
        ensures
            code@ == self.info().code,
    ;
}

/// The plain error: a message and a code, nothing else.
#[derive(Debug)]
pub struct BaseEngineError {
    message: String,
    error_code: String,
}

impl View for BaseEngineError {
    type V = ErrorInfo;

    closed spec fn view(&self) -> ErrorInfo {
        ErrorInfo { message: self.message@, code: self.error_code@ }
    }
}

impl BaseEngineError {
    pub fn new(message: String, error_code: String) -> (error: Self)
        ensures
            error@ == (ErrorInfo { message: message@, code: error_code@ }),
    {
        BaseEngineError { message, error_code }
    }

    /// The failure that carries this error behind the shared error interface.
    pub fn fail<T>(self) -> (failure: Result<T, Box<dyn EngineError>>)
        ensures
            failure is Err,
            failure->Err_0.info() == self@,
    {
        let error: Box<dyn EngineError> = Box::new(self);
        let failure = Err(error);
        failure
    }
}

impl EngineError for BaseEngineError {
    open spec fn info(&self) -> ErrorInfo {
        self@
    }

    fn get_message(&self) -> (message: Box<&String>) {
        Box::new(&self.message)
    }

    fn get_error_code(&self) -> (code: Box<&String>) {
        Box::new(&self.error_code)
    }
}

} // verus!
