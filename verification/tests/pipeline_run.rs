use std::cell::RefCell;
use std::rc::Rc;

use redbox_ci::build_orchestrator::{BuildError, BuildOrchestrator, PipelineError};
use redbox_ci::environment::EnvironmentVariables;
use redbox_ci::errors::{BaseEngineError, EngineError};
use redbox_ci::pipeline::{Global, PipeLine, PipeLineStep, RepoPipeLine};
use redbox_ci::pipeline_executor::{PipeExecutorManager, PipelineExecutor, ProjectLineData};
use redbox_ci::project::Project;
use redbox_ci::project_manager::ProjectManager;
use redbox_ci::source_control::SourceControlCFG;
use redbox_ci::store_manager::StoreManger;
use redbox_ci::workspace::Workspace;
use redbox_ci::workspace_manager::WorkspaceManager;

type Failure = Box<dyn EngineError>;

type Log = Rc<RefCell<Vec<String>>>;

/// Writes down what it is run on, and fails where it is told to.
struct Recording {
    tag: &'static str,
    log: Log,
    fail_on: Option<&'static str>,
}

impl PipelineExecutor for Recording {
    fn run(&self, project: ProjectLineData) -> Result<(), Failure> {
        let line = format!(
            "{}|{}|{}|{:?}|{}|X={:?}|Y={:?}|Z={:?}",
            self.tag,
            project.id,
            project.name,
            project.workspace_dir,
            project.commands.join(";"),
            project.environment_variables.get(&"X".to_string()),
            project.environment_variables.get(&"Y".to_string()),
            project.environment_variables.get(&"Z".to_string()),
        );
        self.log.borrow_mut().push(line);
        assert!(project.configuration.entries().is_empty());
        let first = project.commands.first().map(|c| c.as_str());
        if self.fail_on.is_some() && self.fail_on == first {
            return Err(Box::new(BaseEngineError::new("exit status 2".to_string(), "SH_2".to_string())));
        }
        Ok(())
    }
}

struct Repository {
    clones: Rc<RefCell<usize>>,
    works: bool,
}

impl SourceControlCFG for Repository {
    fn get_source_control_name(&self) -> String {
        "git".to_string()
    }

    fn clone_source(&self) -> Result<(), Failure> {
        *self.clones.borrow_mut() += 1;
        if self.works {
            Ok(())
        } else {
            Err(Box::new(BaseEngineError::new("remote hung up".to_string(), "GIT_128".to_string())))
        }
    }

    fn get_pipeline(&self) -> () {}
}

fn variables(pairs: &[(&str, &str)]) -> Option<EnvironmentVariables> {
    let mut made = EnvironmentVariables::new();
    for (name, value) in pairs {
        made.set(name.to_string(), value.to_string());
    }
    Some(made)
}

fn step(name: &str, executor: &str, command: &str) -> PipeLineStep {
    PipeLineStep {
        name: name.to_string(),
        executor: executor.to_string(),
        description: None,
        environment_variables: None,
        commands: vec![command.to_string()],
    }
}

fn pipeline(name: &str, status: &str, steps: Vec<PipeLineStep>) -> PipeLine {
    PipeLine { name: name.to_string(), status: status.to_string(), environment_variables: None, steps }
}

fn job(pipelines: Vec<PipeLine>) -> RepoPipeLine {
    RepoPipeLine { job: "demo".to_string(), version: 1, global: None, pipelines }
}

fn shell(registry: &mut PipeExecutorManager, log: &Log, fail_on: Option<&'static str>) {
    let added = registry.add_executor("shell", Box::new(Recording { tag: "shell", log: log.clone(), fail_on }));
    assert!(added.is_ok());
}

fn demo() -> (Project, Workspace) {
    let project = Project::new("demo".to_string()).set_id("p1".to_string());
    let workspace = Workspace::new("p1".to_string()).set_base_dir(Some("/work/p1".to_string()));
    (project, workspace)
}

fn failure_of(error: &PipelineError) -> (usize, usize, String, String, String, String) {
    let at = error.failure();
    (
        at.pipeline_index,
        at.step_index,
        at.pipeline.clone(),
        at.step.clone(),
        (*at.error.get_message()).clone(),
        (*at.error.get_error_code()).clone(),
    )
}

#[test]
fn registered_executor_is_resolved_as_the_same_instance() {
    let log: Log = Rc::new(RefCell::new(Vec::new()));
    let mut registry = PipeExecutorManager::new();
    shell(&mut registry, &log, None);
    let first = registry.get_executor("shell").ok().expect("shell is registered");
    let second = registry.get_executor("shell").ok().expect("shell is registered");
    assert!(Rc::ptr_eq(&first, &second));
    assert_eq!(Rc::strong_count(&first), 3);
}

#[test]
fn unregistered_name_is_reported_with_the_name() {
    let log: Log = Rc::new(RefCell::new(Vec::new()));
    let mut registry = PipeExecutorManager::new();
    shell(&mut registry, &log, None);
    let missing = registry.get_executor("missing").err().expect("nothing is registered under that name");
    assert_eq!(missing.name, "missing");
    assert_eq!(*missing.error.get_message(), "Executor not found");
    assert_eq!(*missing.error.get_error_code(), "RBX_CPL_001");
    assert!(PipeExecutorManager::new().get_executor("shell").is_err());
}

#[test]
fn last_registration_under_a_name_stands() {
    let log: Log = Rc::new(RefCell::new(Vec::new()));
    let mut registry = PipeExecutorManager::new();
    assert!(registry.add_executor("shell", Box::new(Recording { tag: "first", log: log.clone(), fail_on: None })).is_ok());
    assert!(registry.add_executor("other", Box::new(Recording { tag: "other", log: log.clone(), fail_on: None })).is_ok());
    assert!(registry.add_executor("shell", Box::new(Recording { tag: "second", log: log.clone(), fail_on: None })).is_ok());
    let data = |name: &str| ProjectLineData {
        id: "p1".to_string(),
        name: name.to_string(),
        workspace_dir: None,
        configuration: EnvironmentVariables::new(),
        environment_variables: EnvironmentVariables::new(),
        commands: vec![],
    };
    assert!(registry.get_executor("shell").ok().expect("registered").run(data("a")).is_ok());
    assert!(registry.get_executor("other").ok().expect("registered").run(data("b")).is_ok());
    assert_eq!(
        *log.borrow(),
        vec![
            "second|p1|a|None||X=None|Y=None|Z=None".to_string(),
            "other|p1|b|None||X=None|Y=None|Z=None".to_string(),
        ]
    );
}

#[test]
fn project_without_source_control_cannot_be_cloned() {
    let project_store: StoreManger<Project, String> = StoreManger::new();
    let workspace_store: StoreManger<Workspace, String> = StoreManger::new();
    let projects = ProjectManager::new(&project_store);
    let workspaces = WorkspaceManager::new(&workspace_store);
    let registry = PipeExecutorManager::new();
    let orchestrator = BuildOrchestrator::new(&projects, &workspaces, &registry);
    let (project, workspace) = demo();
    let error = orchestrator.clone_project(&project, &workspace).err().expect("there is nothing to clone with");
    assert_eq!(*error.get_message(), "source control not found");
    assert_eq!(*error.get_error_code(), "RBX_CBO_001");
}

#[test]
fn clone_goes_through_the_source_control_and_passes_its_answer_on() {
    let project_store: StoreManger<Project, String> = StoreManger::new();
    let workspace_store: StoreManger<Workspace, String> = StoreManger::new();
    let projects = ProjectManager::new(&project_store);
    let workspaces = WorkspaceManager::new(&workspace_store);
    let registry = PipeExecutorManager::new();
    let orchestrator = BuildOrchestrator::new(&projects, &workspaces, &registry);
    let clones = Rc::new(RefCell::new(0usize));
    let (project, workspace) = demo();

    let project = project.set_source_control(Some(Box::new(Repository { clones: clones.clone(), works: true })));
    assert!(orchestrator.clone_project(&project, &workspace).is_ok());
    assert_eq!(*clones.borrow(), 1);

    let project = project.set_source_control(Some(Box::new(Repository { clones: clones.clone(), works: false })));
    let error = orchestrator.clone_project(&project, &workspace).err().expect("the clone fails");
    assert_eq!(*error.get_message(), "remote hung up");
    assert_eq!(*error.get_error_code(), "GIT_128");
    assert_eq!(*clones.borrow(), 2);
}

#[test]
fn run_stops_at_the_step_without_executor() {
    let project_store: StoreManger<Project, String> = StoreManger::new();
    let workspace_store: StoreManger<Workspace, String> = StoreManger::new();
    let projects = ProjectManager::new(&project_store);
    let workspaces = WorkspaceManager::new(&workspace_store);
    let log: Log = Rc::new(RefCell::new(Vec::new()));
    let mut registry = PipeExecutorManager::new();
    shell(&mut registry, &log, None);
    let orchestrator = BuildOrchestrator::new(&projects, &workspaces, &registry);
    let (project, workspace) = demo();
    let config = job(vec![pipeline(
        "build",
        "active",
        vec![step("A", "shell", "make a"), step("B", "docker", "make b"), step("C", "shell", "make c")],
    )]);
    let error = orchestrator.execute_pipeline(&project, &workspace, &config).err().expect("B cannot be run");
    assert!(matches!(error, PipelineError::ExecutorNotFound(_)));
    assert_eq!(
        failure_of(&error),
        (0, 1, "build".to_string(), "B".to_string(), "Executor not found".to_string(), "RBX_CPL_001".to_string())
    );
    assert_eq!(error.failure().executor, "docker");
    assert_eq!(
        *log.borrow(),
        vec!["shell|p1|demo|Some(\"/work/p1\")|make a|X=None|Y=None|Z=None".to_string()]
    );
}

#[test]
fn run_stops_at_the_step_that_fails() {
    let project_store: StoreManger<Project, String> = StoreManger::new();
    let workspace_store: StoreManger<Workspace, String> = StoreManger::new();
    let projects = ProjectManager::new(&project_store);
    let workspaces = WorkspaceManager::new(&workspace_store);
    let log: Log = Rc::new(RefCell::new(Vec::new()));
    let mut registry = PipeExecutorManager::new();
    shell(&mut registry, &log, Some("make b"));
    let orchestrator = BuildOrchestrator::new(&projects, &workspaces, &registry);
    let (project, workspace) = demo();
    let config = job(vec![
        pipeline("build", "active", vec![step("A", "shell", "make a"), step("B", "shell", "make b"), step("C", "shell", "make c")]),
        pipeline("publish", "active", vec![step("D", "shell", "make d")]),
    ]);
    let error = orchestrator.execute_pipeline(&project, &workspace, &config).err().expect("B fails");
    assert!(matches!(error, PipelineError::StepExecutionFailed(_)));
    assert_eq!(
        failure_of(&error),
        (0, 1, "build".to_string(), "B".to_string(), "exit status 2".to_string(), "RBX_CBO_002".to_string())
    );
    assert_eq!(error.failure().executor, "shell");
    assert_eq!(log.borrow().len(), 2);
    assert!(log.borrow()[0].contains("|make a|"));
    assert!(log.borrow()[1].contains("|make b|"));
}

#[test]
fn run_executes_every_step_of_every_active_pipeline_in_order() {
    let project_store: StoreManger<Project, String> = StoreManger::new();
    let workspace_store: StoreManger<Workspace, String> = StoreManger::new();
    let projects = ProjectManager::new(&project_store);
    let workspaces = WorkspaceManager::new(&workspace_store);
    let log: Log = Rc::new(RefCell::new(Vec::new()));
    let mut registry = PipeExecutorManager::new();
    shell(&mut registry, &log, None);
    let orchestrator = BuildOrchestrator::new(&projects, &workspaces, &registry);
    let (project, _) = demo();
    let workspace = Workspace::new("p1".to_string());
    let config = job(vec![
        pipeline("build", "active", vec![step("A", "shell", "make a"), step("B", "shell", "make b")]),
        pipeline("nightly", "disabled", vec![step("N", "nowhere", "make n")]),
        pipeline("empty", "active", vec![]),
        pipeline("publish", "active", vec![step("D", "shell", "make d")]),
    ]);
    assert!(orchestrator.execute_pipeline(&project, &workspace, &config).is_ok());
    assert_eq!(
        *log.borrow(),
        vec![
            "shell|p1|demo|None|make a|X=None|Y=None|Z=None".to_string(),
            "shell|p1|demo|None|make b|X=None|Y=None|Z=None".to_string(),
            "shell|p1|demo|None|make d|X=None|Y=None|Z=None".to_string(),
        ]
    );
}

#[test]
fn run_of_nothing_succeeds() {
    let project_store: StoreManger<Project, String> = StoreManger::new();
    let workspace_store: StoreManger<Workspace, String> = StoreManger::new();
    let projects = ProjectManager::new(&project_store);
    let workspaces = WorkspaceManager::new(&workspace_store);
    let registry = PipeExecutorManager::new();
    let orchestrator = BuildOrchestrator::new(&projects, &workspaces, &registry);
    let (project, workspace) = demo();
    assert!(orchestrator.execute_pipeline(&project, &workspace, &job(vec![])).is_ok());
    let skipped = job(vec![pipeline("nightly", "disabled", vec![step("N", "nowhere", "make n")])]);
    assert!(orchestrator.execute_pipeline(&project, &workspace, &skipped).is_ok());
}

#[test]
fn failure_in_a_later_pipeline_names_that_pipeline() {
    let project_store: StoreManger<Project, String> = StoreManger::new();
    let workspace_store: StoreManger<Workspace, String> = StoreManger::new();
    let projects = ProjectManager::new(&project_store);
    let workspaces = WorkspaceManager::new(&workspace_store);
    let log: Log = Rc::new(RefCell::new(Vec::new()));
    let mut registry = PipeExecutorManager::new();
    shell(&mut registry, &log, None);
    let orchestrator = BuildOrchestrator::new(&projects, &workspaces, &registry);
    let (project, workspace) = demo();
    let config = job(vec![
        pipeline("build", "active", vec![step("A", "shell", "make a")]),
        pipeline("nightly", "disabled", vec![step("N", "nowhere", "make n")]),
        pipeline("publish", "active", vec![step("D", "shell", "make d"), step("E", "ftp", "put")]),
    ]);
    let error = orchestrator.execute_pipeline(&project, &workspace, &config).err().expect("E cannot be run");
    assert!(matches!(error, PipelineError::ExecutorNotFound(_)));
    assert_eq!(
        failure_of(&error),
        (2, 1, "publish".to_string(), "E".to_string(), "Executor not found".to_string(), "RBX_CPL_001".to_string())
    );
    assert_eq!(log.borrow().len(), 2);
}

#[test]
fn executor_is_handed_the_layered_environment() {
    let project_store: StoreManger<Project, String> = StoreManger::new();
    let workspace_store: StoreManger<Workspace, String> = StoreManger::new();
    let projects = ProjectManager::new(&project_store);
    let workspaces = WorkspaceManager::new(&workspace_store);
    let log: Log = Rc::new(RefCell::new(Vec::new()));
    let mut registry = PipeExecutorManager::new();
    shell(&mut registry, &log, None);
    let orchestrator = BuildOrchestrator::new(&projects, &workspaces, &registry);
    let (project, workspace) = demo();
    let mut first = step("A", "shell", "make a");
    first.environment_variables = variables(&[("Y", "4"), ("Z", "5")]);
    first.commands.push("make install".to_string());
    let second = step("B", "shell", "make b");
    let mut build = pipeline("build", "active", vec![first, second]);
    build.environment_variables = variables(&[("X", "2"), ("Y", "3")]);
    let mut config = job(vec![build]);
    config.global = Some(Global { environment_variables: variables(&[("X", "1")]) });
    assert!(orchestrator.execute_pipeline(&project, &workspace, &config).is_ok());
    assert_eq!(
        *log.borrow(),
        vec![
            "shell|p1|demo|Some(\"/work/p1\")|make a;make install|X=Some(\"2\")|Y=Some(\"4\")|Z=Some(\"5\")".to_string(),
            "shell|p1|demo|Some(\"/work/p1\")|make b|X=Some(\"2\")|Y=Some(\"3\")|Z=None".to_string(),
        ]
    );
}

#[test]
fn single_step_and_single_pipeline_can_be_run_alone() {
    let project_store: StoreManger<Project, String> = StoreManger::new();
    let workspace_store: StoreManger<Workspace, String> = StoreManger::new();
    let projects = ProjectManager::new(&project_store);
    let workspaces = WorkspaceManager::new(&workspace_store);
    let log: Log = Rc::new(RefCell::new(Vec::new()));
    let mut registry = PipeExecutorManager::new();
    shell(&mut registry, &log, None);
    let orchestrator = BuildOrchestrator::new(&projects, &workspaces, &registry);
    let (project, workspace) = demo();
    let config = job(vec![pipeline(
        "build",
        "disabled",
        vec![step("A", "shell", "make a"), step("B", "docker", "make b")],
    )]);
    assert!(orchestrator.run_step(&project, &workspace, &config, 0, 0).is_ok());
    assert_eq!(log.borrow().len(), 1);
    let error = orchestrator.run_step(&project, &workspace, &config, 0, 1).err().expect("no docker");
    assert_eq!(
        failure_of(&error),
        (0, 1, "build".to_string(), "B".to_string(), "Executor not found".to_string(), "RBX_CPL_001".to_string())
    );
    let error = orchestrator.run_pipeline(&project, &workspace, &config, 0).err().expect("no docker");
    assert!(matches!(error, PipelineError::ExecutorNotFound(_)));
    assert_eq!(log.borrow().len(), 2);
}

#[test]
fn successful_build_raises_the_version_by_one() {
    let project_store: StoreManger<Project, String> = StoreManger::new();
    let workspace_store: StoreManger<Workspace, String> = StoreManger::new();
    let projects = ProjectManager::new(&project_store);
    let workspaces = WorkspaceManager::new(&workspace_store);
    let log: Log = Rc::new(RefCell::new(Vec::new()));
    let mut registry = PipeExecutorManager::new();
    shell(&mut registry, &log, None);
    let orchestrator = BuildOrchestrator::new(&projects, &workspaces, &registry);
    let clones = Rc::new(RefCell::new(0usize));
    let (project, workspace) = demo();
    let project = project.set_source_control(Some(Box::new(Repository { clones: clones.clone(), works: true })));
    let config = job(vec![pipeline("build", "active", vec![step("A", "shell", "make a")])]);

    let built = orchestrator.build(&project, workspace, &config).ok().expect("the build succeeds");
    assert_eq!(built.get_latest_build_version(), 1);
    assert_eq!(built.get_project_id(), "p1");
    assert_eq!(*built.get_base_dir(), Some("/work/p1".to_string()));
    assert_eq!(*clones.borrow(), 1);
    assert_eq!(log.borrow().len(), 1);

    let built = orchestrator.build(&project, built, &config).ok().expect("the build succeeds");
    assert_eq!(built.get_latest_build_version(), 2);
    assert_eq!(*clones.borrow(), 2);
    assert_eq!(log.borrow().len(), 2);

    let at_the_limit = built.set_latest_build_version(usize::MAX);
    let built = orchestrator.build(&project, at_the_limit, &config).ok().expect("the build succeeds");
    assert_eq!(built.get_latest_build_version(), usize::MAX);
}

#[test]
fn build_without_source_control_runs_no_step() {
    let project_store: StoreManger<Project, String> = StoreManger::new();
    let workspace_store: StoreManger<Workspace, String> = StoreManger::new();
    let projects = ProjectManager::new(&project_store);
    let workspaces = WorkspaceManager::new(&workspace_store);
    let log: Log = Rc::new(RefCell::new(Vec::new()));
    let mut registry = PipeExecutorManager::new();
    shell(&mut registry, &log, None);
    let orchestrator = BuildOrchestrator::new(&projects, &workspaces, &registry);
    let (project, workspace) = demo();
    let config = job(vec![pipeline("build", "active", vec![step("A", "shell", "make a")])]);
    match orchestrator.build(&project, workspace, &config) {
        Err(BuildError::CloneFailed(error)) => {
            assert_eq!(*error.get_message(), "source control not found");
            assert_eq!(*error.get_error_code(), "RBX_CBO_001");
        }
        other => panic!("the clone should have failed: {:?}", other.map(|w| w.get_latest_build_version())),
    }
    assert!(log.borrow().is_empty());
}

#[test]
fn build_with_a_failing_clone_reports_what_the_source_control_said() {
    let project_store: StoreManger<Project, String> = StoreManger::new();
    let workspace_store: StoreManger<Workspace, String> = StoreManger::new();
    let projects = ProjectManager::new(&project_store);
    let workspaces = WorkspaceManager::new(&workspace_store);
    let log: Log = Rc::new(RefCell::new(Vec::new()));
    let mut registry = PipeExecutorManager::new();
    shell(&mut registry, &log, None);
    let orchestrator = BuildOrchestrator::new(&projects, &workspaces, &registry);
    let clones = Rc::new(RefCell::new(0usize));
    let (project, workspace) = demo();
    let project = project.set_source_control(Some(Box::new(Repository { clones: clones.clone(), works: false })));
    let config = job(vec![pipeline("build", "active", vec![step("A", "shell", "make a")])]);
    match orchestrator.build(&project, workspace, &config) {
        Err(BuildError::CloneFailed(error)) => {
            assert_eq!(*error.get_message(), "remote hung up");
            assert_eq!(*error.get_error_code(), "GIT_128");
        }
        other => panic!("the clone should have failed: {:?}", other.map(|w| w.get_latest_build_version())),
    }
    assert_eq!(*clones.borrow(), 1);
    assert!(log.borrow().is_empty());
}

#[test]
fn build_with_a_refused_step_reports_the_step() {
    let project_store: StoreManger<Project, String> = StoreManger::new();
    let workspace_store: StoreManger<Workspace, String> = StoreManger::new();
    let projects = ProjectManager::new(&project_store);
    let workspaces = WorkspaceManager::new(&workspace_store);
    let log: Log = Rc::new(RefCell::new(Vec::new()));
    let mut registry = PipeExecutorManager::new();
    shell(&mut registry, &log, Some("make b"));
    let orchestrator = BuildOrchestrator::new(&projects, &workspaces, &registry);
    let clones = Rc::new(RefCell::new(0usize));
    let (project, workspace) = demo();
    let project = project.set_source_control(Some(Box::new(Repository { clones: clones.clone(), works: true })));
    let config = job(vec![pipeline(
        "build",
        "active",
        vec![step("A", "shell", "make a"), step("B", "shell", "make b"), step("C", "shell", "make c")],
    )]);
    match orchestrator.build(&project, workspace, &config) {
        Err(BuildError::PipelineFailed(error)) => {
            assert!(matches!(error, PipelineError::StepExecutionFailed(_)));
            assert_eq!(
                failure_of(&error),
                (0, 1, "build".to_string(), "B".to_string(), "exit status 2".to_string(), "RBX_CBO_002".to_string())
            );
        }
        other => panic!("step B should have failed: {:?}", other.map(|w| w.get_latest_build_version())),
    }
    assert_eq!(*clones.borrow(), 1);
    assert_eq!(log.borrow().len(), 2);
}
