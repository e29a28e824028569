//! Builds a project in a workspace: fetches the source through the project's
//! source control, then runs the steps of the configured pipelines one after
//! the other, stopping at the first that cannot be run or fails.

use vstd::prelude::*;
use std::rc::Rc;
use crate::errors::{BaseEngineError, EngineError, ErrorInfo};
use crate::environment::EnvironmentVariables;
use crate::pipeline::RepoPipeLine;
use crate::pipeline_executor::{PipeExecutorManager, PipelineExecutor, ProjectLineData, ProjectLineView};
use crate::project::{Project, ProjectView};
use crate::project_manager::ProjectManager;
use crate::source_control::SourceControlCFG;
use crate::workspace::{Workspace, WorkspaceView};
use crate::workspace_manager::WorkspaceManager;

verus! {

/// What cloning reports for a project that has no source control.
pub open spec fn source_control_not_found() -> ErrorInfo {
    ErrorInfo { message: "source control not found"@, code: "RBX_CBO_001"@ }
}

/// What a run reports for a step whose executor failed with `cause`: the
/// executor's message under the orchestrator's code.
pub open spec fn step_failed(cause: ErrorInfo) -> ErrorInfo {
    ErrorInfo { message: cause.message, code: "RBX_CBO_002"@ }
}

/// Where a run stopped, and on what.
#[derive(Debug)]
pub struct StepFailure {
    /// Position of the pipeline among the configured pipelines.
    pub pipeline_index: usize,
    /// Position of the step among the pipeline's steps.
    pub step_index: usize,
    /// Name of the pipeline.
    pub pipeline: String,
    /// Name of the step.
    pub step: String,
    /// Name under which the step asks for its executor.
    pub executor: String,
    pub error: BaseEngineError,
}

/// Why a run stopped before its end.
#[derive(Debug)]
pub enum PipelineError {
    /// No executor is registered under the name the step gives.
    ExecutorNotFound(StepFailure),
    /// The step's executor ran and reported a failure.
    StepExecutionFailed(StepFailure),
}

impl PipelineError {
    /// Where the run stopped.
    pub open spec fn at(&self) -> StepFailure {
        match self {
            PipelineError::ExecutorNotFound(failure) => *failure,
            PipelineError::StepExecutionFailed(failure) => *failure,
        }
    }

    /// Where the run stopped.
    pub fn failure(&self) -> (failure: &StepFailure)
        ensures
            *failure == self.at(),
    {
        match self {
            PipelineError::ExecutorNotFound(failure) => failure,
            PipelineError::StepExecutionFailed(failure) => failure,
        }
    }
}

/// Why a build did not succeed.
#[derive(Debug)]
pub enum BuildError {
    /// The source could not be fetched; no step was run. The error says what
    /// the source control said, or that the project has none.
    CloneFailed(BaseEngineError),
    /// The source was fetched and a step was refused.
    PipelineFailed(PipelineError),
}

/// The version after one more successful build.
pub open spec fn next_version(version: nat) -> nat {
    if version < usize::MAX {
        version + 1
    } else {
        version
    }
}

/// What the executor of step `step` of pipeline `pipeline` is handed: the
/// project's identity and name, the workspace's directory, no configuration,
/// the variables in force for the step, and the step's commands.
pub open spec fn step_data(
    project: ProjectView,
    workspace: WorkspaceView,
    config: RepoPipeLine,
    pipeline: int,
    step: int,
) -> ProjectLineView {
    ProjectLineView {
        id: project.id,
        name: project.name,
        workspace_dir: workspace.base_dir,
        configuration: Map::empty(),
        environment_variables: config.step_variables(pipeline, step),
        commands: crate::text::texts(config.pipelines[pipeline].steps[step].commands@),
    }
}

/// Step `step` of pipeline `pipeline` has an executor, which ran on the
/// step's data and reported success.
pub open spec fn step_passed(
    registry: Map<Seq<char>, Rc<Box<dyn PipelineExecutor>>>,
    project: ProjectView,
    workspace: WorkspaceView,
    config: RepoPipeLine,
    pipeline: int,
    step: int,
) -> bool {
    let name = config.pipelines[pipeline].steps[step].executor@;
    registry.contains_key(name) && exists|answer: Result<(), Box<dyn EngineError>>|
        #[trigger] registry[name].run_allows(step_data(project, workspace, config, pipeline, step), answer)
            && answer is Ok
}

/// The first `upto` steps of pipeline `pipeline` passed.
pub open spec fn steps_passed(
    registry: Map<Seq<char>, Rc<Box<dyn PipelineExecutor>>>,
    project: ProjectView,
    workspace: WorkspaceView,
    config: RepoPipeLine,
    pipeline: int,
    upto: int,
) -> bool {
    forall|step: int| 0 <= step < upto ==> #[trigger] step_passed(registry, project, workspace, config, pipeline, step)
}

/// Of the first `upto` pipelines, every one that is to be run passed in all
/// its steps.
pub open spec fn pipelines_passed(
    registry: Map<Seq<char>, Rc<Box<dyn PipelineExecutor>>>,
    project: ProjectView,
    workspace: WorkspaceView,
    config: RepoPipeLine,
    upto: int,
) -> bool {
    forall|pipeline: int|
        0 <= pipeline < upto && (#[trigger] config.pipelines[pipeline]).runnable() ==> steps_passed(
            registry,
            project,
            workspace,
            config,
            pipeline,
            config.pipelines[pipeline].steps.len() as int,
        )
}

/// `error` is what the step at its position gives: the step exists, the error
/// names it and its pipeline, and either no executor is registered under the
/// step's executor name, or the one registered ran on the step's data and
/// failed, with the message that the error passes on.
pub open spec fn step_refused(
    registry: Map<Seq<char>, Rc<Box<dyn PipelineExecutor>>>,
    project: ProjectView,
    workspace: WorkspaceView,
    config: RepoPipeLine,
    error: PipelineError,
) -> bool {
    let pipeline = error.at().pipeline_index as int;
    let step = error.at().step_index as int;
    let name = config.pipelines[pipeline].steps[step].executor@;
    &&& pipeline < config.pipelines.len()
    &&& step < config.pipelines[pipeline].steps.len()
    &&& error.at().pipeline@ == config.pipelines[pipeline].name@
    &&& error.at().step@ == config.pipelines[pipeline].steps[step].name@
    &&& error.at().executor@ == name
    &&& match error {
        PipelineError::ExecutorNotFound(_) => !registry.contains_key(name) && error.at().error@
            == crate::pipeline_executor::executor_not_found(),
        PipelineError::StepExecutionFailed(_) => registry.contains_key(name) && exists|
            answer: Result<(), Box<dyn EngineError>>,
        |
            #[trigger] registry[name].run_allows(step_data(project, workspace, config, pipeline, step), answer)
                && answer is Err && error.at().error@ == step_failed(answer->Err_0.info()),
    }
}

/// The run stopped with `error`: the pipeline it names was to be run,
/// everything before the step it names passed, and the step itself was
/// refused. Nothing behind that step was run.
pub open spec fn stopped_at(
    registry: Map<Seq<char>, Rc<Box<dyn PipelineExecutor>>>,
    project: ProjectView,
    workspace: WorkspaceView,
    config: RepoPipeLine,
    error: PipelineError,
) -> bool {
    let pipeline = error.at().pipeline_index as int;
    let step = error.at().step_index as int;
    &&& step_refused(registry, project, workspace, config, error)
    &&& config.pipelines[pipeline].runnable()
    &&& pipelines_passed(registry, project, workspace, config, pipeline)
    &&& steps_passed(registry, project, workspace, config, pipeline, step)
}

/// `result` is what a run over `config` gives: success when every pipeline
/// that is to be run passed in all its steps, and otherwise the failure of
/// the first step that was refused.
pub open spec fn run_explained(
    registry: Map<Seq<char>, Rc<Box<dyn PipelineExecutor>>>,
    project: ProjectView,
    workspace: WorkspaceView,
    config: RepoPipeLine,
    result: Result<(), PipelineError>,
) -> bool {
    match result {
        Ok(_) => pipelines_passed(registry, project, workspace, config, config.pipelines.len() as int),
        Err(error) => stopped_at(registry, project, workspace, config, error),
    }
}

/// A run does not get past a step whose executor is not registered. Where a
/// pipeline that is to be run has such a step, the run fails, at that step or
/// before it; and a run that stops at that very step reports that the
/// executor was not found.
pub proof fn unregistered_step_stops_the_run(
    registry: Map<Seq<char>, Rc<Box<dyn PipelineExecutor>>>,
    project: ProjectView,
    workspace: WorkspaceView,
    config: RepoPipeLine,
    result: Result<(), PipelineError>,
    pipeline: int,
    step: int,
)
    requires
        run_explained(registry, project, workspace, config, result),
        0 <= pipeline < config.pipelines.len(),
        config.pipelines[pipeline].runnable(),
        0 <= step < config.pipelines[pipeline].steps.len(),
        !registry.contains_key(config.pipelines[pipeline].steps[step].executor@),
    ensures
        result is Err,
        result->Err_0.at().pipeline_index < pipeline || (result->Err_0.at().pipeline_index == pipeline
            && result->Err_0.at().step_index <= step),
        result->Err_0.at().pipeline_index == pipeline && result->Err_0.at().step_index == step
            ==> result->Err_0 is ExecutorNotFound,
{
    match result {
        Ok(_) => {
            assert(steps_passed(
                registry,
                project,
                workspace,
                config,
                pipeline,
                config.pipelines[pipeline].steps.len() as int,
            ));
            assert(step_passed(registry, project, workspace, config, pipeline, step));
        },
        Err(error) => {
            if error.at().pipeline_index > pipeline {
                assert(steps_passed(
                    registry,
                    project,
                    workspace,
                    config,
                    pipeline,
                    config.pipelines[pipeline].steps.len() as int,
                ));
                assert(step_passed(registry, project, workspace, config, pipeline, step));
            } else if error.at().pipeline_index == pipeline && error.at().step_index > step {
                assert(step_passed(registry, project, workspace, config, pipeline, step));
            }
        },
    }
}

/// Every step before the one a run stopped at had an executor that ran and
/// reported success, in each pipeline that was to be run; so a run that fails
/// at the second step of a pipeline has run the first and none behind the
/// second.
pub proof fn steps_before_the_failure_passed(
    registry: Map<Seq<char>, Rc<Box<dyn PipelineExecutor>>>,
    project: ProjectView,
    workspace: WorkspaceView,
    config: RepoPipeLine,
    error: PipelineError,
    pipeline: int,
    step: int,
)
    requires
        run_explained(registry, project, workspace, config, Err(error)),
        0 <= pipeline < config.pipelines.len(),
        config.pipelines[pipeline].runnable(),
        0 <= step < config.pipelines[pipeline].steps.len(),
        pipeline < error.at().pipeline_index || (pipeline == error.at().pipeline_index && step
            < error.at().step_index),
    ensures
        step_passed(registry, project, workspace, config, pipeline, step),
{
    if pipeline < error.at().pipeline_index {
        assert(steps_passed(
            registry,
            project,
            workspace,
            config,
            pipeline,
            config.pipelines[pipeline].steps.len() as int,
        ));
    }
}

/// `answer` is what fetching the source of `project` may give: the failure
/// that says that there is no source control, or an answer of the source
/// control the project holds.
pub open spec fn clone_explained(project: Project, answer: Result<(), Box<dyn EngineError>>) -> bool {
    match project.source_control() {
        None => answer is Err && answer->Err_0.info() == source_control_not_found(),
        Some(config) => config.clone_allows(answer),
    }
}

/// `result` is what building gives when fetching the source is answered with
/// `cloned`: a failed fetch ends the build before any step; otherwise the run
/// decides, and a run that succeeds hands back the workspace with its build
/// version raised by one and nothing else changed.
pub open spec fn build_explained(
    registry: Map<Seq<char>, Rc<Box<dyn PipelineExecutor>>>,
    project: Project,
    workspace: Workspace,
    config: RepoPipeLine,
    result: Result<Workspace, BuildError>,
    cloned: Result<(), Box<dyn EngineError>>,
) -> bool {
    &&& clone_explained(project, cloned)
    &&& match result {
        Ok(built) => cloned is Ok && run_explained(
            registry,
            project@,
            workspace@,
            config,
            Ok::<(), PipelineError>(()),
        ) && built@ == (WorkspaceView {
            last_build_version: next_version(workspace@.last_build_version),
            ..workspace@
        }),
        Err(BuildError::CloneFailed(error)) => cloned is Err && error@ == cloned->Err_0.info(),
        Err(BuildError::PipelineFailed(error)) => cloned is Ok && run_explained(
            registry,
            project@,
            workspace@,
            config,
            Err::<(), PipelineError>(error),
        ),
    }
}

/// Builds projects, with the two managers at hand and the executors that
/// steps are run by.
pub struct BuildOrchestrator<'pm, 'ws, 'ex> {
    project_manager: &'pm ProjectManager<'pm>,
    workspace_manager: &'ws WorkspaceManager<'ws>,
    executors: &'ex PipeExecutorManager,
}

impl<'pm, 'ws, 'ex> BuildOrchestrator<'pm, 'ws, 'ex> {
    /// The executors that steps are resolved in, by name.
    pub closed spec fn registry(&self) -> Map<Seq<char>, Rc<Box<dyn PipelineExecutor>>> {
        self.executors@
    }

    /// The manager of projects.
    pub closed spec fn projects(&self) -> &ProjectManager<'pm> {
        self.project_manager
    }

    /// The manager of workspaces.
    pub closed spec fn workspaces(&self) -> &WorkspaceManager<'ws> {
        self.workspace_manager
    }

    pub fn new(
        project_manager: &'pm ProjectManager<'pm>,
        workspace_manager: &'ws WorkspaceManager<'ws>,
        executors: &'ex PipeExecutorManager,
    ) -> (orchestrator: Self)
        ensures
            orchestrator.registry() == executors@,
            orchestrator.projects() == project_manager,
            orchestrator.workspaces() == workspace_manager,
    {
        BuildOrchestrator { project_manager, workspace_manager, executors }
    }

    /// Fetches the project's source. A project without source control fails
    /// at once, before anything is touched; otherwise the answer is the one
    /// that the source control gives, passed on as it is.
    pub fn clone_project(&self, project: &Project, workspace: &Workspace) -> (result: Result<(), Box<dyn EngineError>>)
        ensures
            clone_explained(*project, result),
    {
        match project.get_source_control() {
            Some(config) => config.clone_source(),
            None => BaseEngineError::new("source control not found".to_string(), "RBX_CBO_001".to_string()).fail(),
        }
    }

    /// Builds the project in the workspace: fetches the source, then runs
    /// the configured pipelines. Nothing is tried twice; a build that failed
    /// is started again from the beginning by calling this again.
    pub fn build(&self, project: &Project, workspace: Workspace, pipeline_config: &RepoPipeLine) -> (result: Result<
        Workspace,
        BuildError,
    >)
        ensures
            exists|cloned: Result<(), Box<dyn EngineError>>| #[trigger]
                build_explained(self.registry(), *project, workspace, *pipeline_config, result, cloned),
    {
        let cloned = self.clone_project(project, &workspace);
        let ghost answer = cloned;
        let result = match cloned {
            Err(cause) => {
                let message = cause.get_message();
                let code = cause.get_error_code();
                Err(BuildError::CloneFailed(BaseEngineError::new((*message).clone(), (*code).clone())))
            },
            Ok(_) => match self.execute_pipeline(project, &workspace, pipeline_config) {
                Err(error) => Err(BuildError::PipelineFailed(error)),
                Ok(_) => {
                    let version: usize = workspace.get_latest_build_version();
                    let next: usize = if version < usize::MAX {
                        version + 1
                    } else {
                        version
                    };
                    Ok(workspace.set_latest_build_version(next))
                },
            },
        };
        assert(build_explained(self.registry(), *project, workspace, *pipeline_config, result, answer));
        result
    }

    /// Runs one step: looks its executor up and hands it the step's data.
    pub fn run_step(
        &self,
        project: &Project,
        workspace: &Workspace,
        pipeline_config: &RepoPipeLine,
        pipeline: usize,
        step: usize,
    ) -> (result: Result<(), PipelineError>)
        requires
            pipeline < pipeline_config.pipelines.len(),
            step < pipeline_config.pipelines[pipeline as int].steps.len(),
        ensures
            match result {
                Ok(_) => step_passed(
                    self.registry(),
                    project@,
                    workspace@,
                    *pipeline_config,
                    pipeline as int,
                    step as int,
                ),
                Err(error) => error.at().pipeline_index == pipeline && error.at().step_index == step
                    && step_refused(self.registry(), project@, workspace@, *pipeline_config, error),
            },
    {
        let chosen = &pipeline_config.pipelines[pipeline];
        let current = &chosen.steps[step];
        match self.executors.get_executor(current.executor.as_str()) {
            Err(missing) => Err(
                PipelineError::ExecutorNotFound(
                    StepFailure {
                        pipeline_index: pipeline,
                        step_index: step,
                        pipeline: chosen.name.clone(),
                        step: current.name.clone(),
                        executor: missing.name,
                        error: missing.error,
                    },
                ),
            ),
            Ok(executor) => {
                let workspace_dir = match workspace.get_base_dir() {
                    Some(dir) => Some(dir.clone()),
                    None => None,
                };
                let data = ProjectLineData {
                    id: project.get_id().clone(),
                    name: project.get_name().clone(),
                    workspace_dir,
                    configuration: EnvironmentVariables::new(),
                    environment_variables: pipeline_config.effective_environment(pipeline, step),
                    commands: crate::text::copied(&current.commands),
                };
                let answer = executor.run(data);
                match answer {
                    Ok(_) => Ok(()),
                    Err(cause) => {
                        let message = cause.get_message();
                        let error = PipelineError::StepExecutionFailed(
                            StepFailure {
                                pipeline_index: pipeline,
                                step_index: step,
                                pipeline: chosen.name.clone(),
                                step: current.name.clone(),
                                executor: current.executor.clone(),
                                error: BaseEngineError::new((*message).clone(), "RBX_CBO_002".to_string()),
                            },
                        );
                        Err(error)
                    },
                }
            },
        }
    }

    /// Runs the steps of one pipeline in the order they are declared and
    /// stops at the first that is refused.
    pub fn run_pipeline(
        &self,
        project: &Project,
        workspace: &Workspace,
        pipeline_config: &RepoPipeLine,
        pipeline: usize,
    ) -> (result: Result<(), PipelineError>)
        requires
            pipeline < pipeline_config.pipelines.len(),
        ensures
            match result {
                Ok(_) => steps_passed(
                    self.registry(),
                    project@,
                    workspace@,
                    *pipeline_config,
                    pipeline as int,
                    pipeline_config.pipelines[pipeline as int].steps.len() as int,
                ),
                Err(error) => error.at().pipeline_index == pipeline && step_refused(
                    self.registry(),
                    project@,
                    workspace@,
                    *pipeline_config,
                    error,
                ) && steps_passed(
                    self.registry(),
                    project@,
                    workspace@,
                    *pipeline_config,
                    pipeline as int,
                    error.at().step_index as int,
                ),
            },
    {
        let count: usize = pipeline_config.pipelines[pipeline].steps.len();
        let mut step: usize = 0;
        while step < count
            invariant
                pipeline < pipeline_config.pipelines.len(),
                count == pipeline_config.pipelines[pipeline as int].steps.len(),
                step <= count,
                steps_passed(
                    self.registry(),
                    project@,
                    workspace@,
                    *pipeline_config,
                    pipeline as int,
                    step as int,
                ),
            decreases count - step,
        {
            match self.run_step(project, workspace, pipeline_config, pipeline, step) {
                Ok(_) => {},
                Err(error) => {
                    return Err(error);
                },
            }
            step += 1;
        }
        Ok(())
    }

    /// Runs the configured pipelines in order, passing over those whose
    /// status does not mark them as runnable. The first step that has no
    /// executor, or whose executor fails, ends the whole run: no later step
    /// and no later pipeline is started, and nothing is tried again.
    pub fn execute_pipeline(&self, project: &Project, workspace: &Workspace, pipeline_config: &RepoPipeLine) -> (result:
        Result<(), PipelineError>)
        ensures
            run_explained(self.registry(), project@, workspace@, *pipeline_config, result),
    {
        let count: usize = pipeline_config.pipelines.len();
        let mut pipeline: usize = 0;
        while pipeline < count
            invariant
                count == pipeline_config.pipelines.len(),
                pipeline <= count,
                pipelines_passed(self.registry(), project@, workspace@, *pipeline_config, pipeline as int),
            decreases count - pipeline,
        {
            if pipeline_config.pipelines[pipeline].is_runnable() {
                match self.run_pipeline(project, workspace, pipeline_config, pipeline) {
                    Ok(_) => {},
                    Err(error) => {
                        return Err(error);
                    },
                }
            }
            pipeline += 1;
        }
        Ok(())
    }
}

} // verus!
