//! The pipeline document of a repository, as it stands in memory once it has
//! been read: a job with its pipelines, each an ordered list of steps.
//! Environment variables may be given for the whole job, for a pipeline and
//! for a step.

use vstd::prelude::*;
use crate::environment::EnvironmentVariables;

verus! {

/// A job: its name, the version of the document's layout, what holds for
/// all its pipelines, and the pipelines in the order they are to be run.
#[derive(Debug)]
pub struct RepoPipeLine {
    pub job: String,
    pub version: usize,
    pub global: Option<Global>,
    pub pipelines: Vec<PipeLine>,
}

/// What holds for every pipeline of a job.
#[derive(Debug)]
pub struct Global {
    pub environment_variables: Option<EnvironmentVariables>,
}

/// A pipeline: steps to be run one after the other, in the order given.
#[derive(Debug)]
pub struct PipeLine {
    pub name: String,
    pub status: String,
    pub environment_variables: Option<EnvironmentVariables>,
    pub steps: Vec<PipeLineStep>,
}

/// A step: the name of the executor that runs it and the commands for it,
/// in the order given.
#[derive(Debug)]
pub struct PipeLineStep {
    pub name: String,
    pub executor: String,
    pub description: Option<String>,
    pub environment_variables: Option<EnvironmentVariables>,
    pub commands: Vec<String>,
}

/// The status under which a pipeline is run. Pipelines of any other status
/// are passed over.
pub open spec fn runnable_status() -> Seq<char> {
    "active"@
}

impl PipeLine {
    /// Whether the pipeline's status marks it as one to run.
    pub open spec fn runnable(&self) -> bool {
        self.status@ == runnable_status()
    }

    /// Whether the pipeline's status marks it as one to run.
    pub fn is_runnable(&self) -> (runnable: bool)
        ensures
            runnable == self.runnable(),
    {
        let wanted = "active".to_string();
        self.status == wanted
    }
}

impl RepoPipeLine {
    /// The variables given for the whole job: none where the document has no
    /// global block, or a global block without variables.
    pub open spec fn global_variables(&self) -> Map<Seq<char>, Seq<char>> {
        match self.global {
            Some(global) => crate::environment::layer(global.environment_variables),
            None => Map::empty(),
        }
    }

    /// The variables in force for step `step` of pipeline `pipeline`: the
    /// job's, overridden by the pipeline's, overridden by the step's.
    pub open spec fn step_variables(&self, pipeline: int, step: int) -> Map<Seq<char>, Seq<char>> {
        crate::environment::layered(
            self.global_variables(),
            crate::environment::layer(self.pipelines[pipeline].environment_variables),
            crate::environment::layer(self.pipelines[pipeline].steps[step].environment_variables),
        )
    }

    /// Works out the variables in force for one step.
    pub fn effective_environment(&self, pipeline: usize, step: usize) -> (variables: EnvironmentVariables)
        requires
            pipeline < self.pipelines.len(),
            step < self.pipelines[pipeline as int].steps.len(),
        ensures
            variables@ == self.step_variables(pipeline as int, step as int),
    {
        let base = EnvironmentVariables::new();
        let job_level = match &self.global {
            Some(global) => base.overlay_optional(&global.environment_variables),
            None => base.overlay_optional(&None),
        };
        let chosen = &self.pipelines[pipeline];
        let pipeline_level = job_level.overlay_optional(&chosen.environment_variables);
        pipeline_level.overlay_optional(&chosen.steps[step].environment_variables)
    }
}

} // verus!
