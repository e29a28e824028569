//! Executors do the work of pipeline steps. They are registered under a name
//! and looked up by the name a step gives.

use vstd::prelude::*;
use vstd::hash_map::StringHashMap;
use std::rc::Rc;
use crate::environment::EnvironmentVariables;
use crate::errors::{BaseEngineError, EngineError, ErrorInfo};

verus! {

/// What an executor is handed for one step.
#[derive(Debug)]
pub struct ProjectLineData {
    pub id: String,
    pub name: String,
    pub workspace_dir: Option<String>,
    pub configuration: EnvironmentVariables,
    pub environment_variables: EnvironmentVariables,
    pub commands: Vec<String>,
}

/// The plain data of a [`ProjectLineData`].
pub struct ProjectLineView {
    pub id: Seq<char>,
    pub name: Seq<char>,
    pub workspace_dir: Option<Seq<char>>,
    pub configuration: Map<Seq<char>, Seq<char>>,
    pub environment_variables: Map<Seq<char>, Seq<char>>,
    pub commands: Seq<Seq<char>>,
}

impl View for ProjectLineData {
    type V = ProjectLineView;

    open spec fn view(&self) -> ProjectLineView {
        ProjectLineView {
            id: self.id@,
            name: self.name@,
            workspace_dir: crate::workspace::optional_text(self.workspace_dir),
            configuration: self.configuration@,
            environment_variables: self.environment_variables@,
            commands: crate::text::texts(self.commands@),
        }
    }
}

/// Runs one step. The result tells the caller whether to go on to the next
/// step.
///
/// `run_allows` says which answers a run may give. An executor that states
/// nothing allows every answer; one that Verus does not see is taken at its
/// word.
pub trait PipelineExecutor {
    /// Whether `answer` is one this executor may give when run on `project`.
    open spec fn run_allows(&self, project: ProjectLineView, answer: Result<(), Box<dyn EngineError>>) -> bool {
        true
    }

    fn run(&self, project: ProjectLineData) -> (answer: Result<(), Box<dyn EngineError>>)
        ensures
            self.run_allows(project@, answer),
    ;
}

/// What a lookup of an unregistered name reports.
pub open spec fn executor_not_found() -> ErrorInfo {
    ErrorInfo { message: "Executor not found"@, code: "RBX_CPL_001"@ }
}

/// No executor is registered under `name`.
#[derive(Debug)]
pub struct ExecutorNotFound {
    pub name: String,
    pub error: BaseEngineError,
}

/// `Rc::clone` of std: one more handle to the executor that `executor` shares.
#[verifier::external_body]
fn share(executor: &Rc<Box<dyn PipelineExecutor>>) -> (shared: Rc<Box<dyn PipelineExecutor>>)
    ensures
        shared == *executor,
{
    Rc::clone(executor)
}

/// The executors, by the name they were registered under.
pub struct PipeExecutorManager {
    executors: StringHashMap<Rc<Box<dyn PipelineExecutor>>>,
}

impl View for PipeExecutorManager {
    type V = Map<Seq<char>, Rc<Box<dyn PipelineExecutor>>>;

    closed spec fn view(&self) -> Map<Seq<char>, Rc<Box<dyn PipelineExecutor>>> {
        self.executors@
    }
}

impl PipeExecutorManager {
    /// A registry with nothing registered.
    pub fn new() -> (registry: Self)
        ensures
            registry@ == Map::<Seq<char>, Rc<Box<dyn PipelineExecutor>>>::empty(),
    {
        PipeExecutorManager { executors: StringHashMap::new() }
    }

    /// Registers `executor` under `name`. A name that is taken is given to
    /// the new executor: the last registration stands. Registering never
    /// fails.
    pub fn add_executor(&mut self, name: &str, executor: Box<dyn PipelineExecutor>) -> (result: Result<(), Box<dyn EngineError>>)
        ensures
            result is Ok,
            final(self)@.contains_key(name@),
            *final(self)@[name@] == executor,
            final(self)@.remove(name@) == old(self)@.remove(name@),
    {
        let shared = Rc::new(executor);
        self.executors.insert(name.to_string(), shared);
        Ok(())
    }

    /// The executor registered under `name`, shared with the registry and
    /// with every other caller that asked for it.
    pub fn get_executor(&self, name: &str) -> (result: Result<Rc<Box<dyn PipelineExecutor>>, ExecutorNotFound>)
        ensures
            match result {
                Ok(executor) => self@.contains_key(name@) && executor == self@[name@],
                Err(missing) => !self@.contains_key(name@) && missing.name@ == name@ && missing.error@
                    == executor_not_found(),
            },
    {
        match self.executors.get(name) {
            Some(executor) => Ok(share(executor)),
            None => Err(
                ExecutorNotFound {
                    name: name.to_string(),
                    error: BaseEngineError::new("Executor not found".to_string(), "RBX_CPL_001".to_string()),
                },
            ),
        }
    }
}

} // verus!
