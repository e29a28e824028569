//! A workspace: the working copy of one project, with the version of its last
//! build and the directory it was materialised in.

use vstd::prelude::*;

verus! {

/// The plain data of a workspace.
pub struct WorkspaceView {
    pub project_id: Seq<char>,
    pub last_build_version: nat,
    pub base_dir: Option<Seq<char>>,
}

/// The characters of an optional string.
pub open spec fn optional_text(text: Option<String>) -> Option<Seq<char>> {
    match text {
        Some(t) => Some(t@),
        None => None,
    }
}

/// The workspace of the project `project_id`. Its fields are set by the
/// consuming setters, each of which hands back the workspace with one field
/// replaced.
#[derive(Debug)]
pub struct Workspace {
    project_id: String,
    last_build_version: usize,
    project_dir: Option<String>,
}

impl View for Workspace {
    type V = WorkspaceView;

    closed spec fn view(&self) -> WorkspaceView {
        WorkspaceView {
            project_id: self.project_id@,
            last_build_version: self.last_build_version as nat,
            base_dir: optional_text(self.project_dir),
        }
    }
}

impl Workspace {
    /// The workspace of a project before its first build: version 0 and no
    /// directory yet.
    pub fn new(project_id: String) -> (workspace: Self)
        ensures
            workspace@ == (WorkspaceView {
                project_id: project_id@,
                last_build_version: 0,
                base_dir: None,
            }),
    {
        Workspace { project_id, last_build_version: 0, project_dir: None }
    }

    pub fn set_project_id(self, project_id: String) -> (workspace: Self)
        ensures
            workspace@ == (WorkspaceView { project_id: project_id@, ..self@ }),
    {
        let mut workspace = self;
        workspace.project_id = project_id;
        workspace
    }

    pub fn get_project_id(&self) -> (project_id: &String)
        ensures
            project_id@ == self@.project_id,
    {
        &self.project_id
    }

    pub fn set_latest_build_version(self, version: usize) -> (workspace: Self)
        ensures
            workspace@ == (WorkspaceView { last_build_version: version as nat, ..self@ }),
    {
        let mut workspace = self;
        workspace.last_build_version = version;
        workspace
    }

    pub fn get_latest_build_version(&self) -> (version: usize)
        ensures
            version == self@.last_build_version,
    {
        self.last_build_version
    }

    pub fn set_base_dir(self, dir: Option<String>) -> (workspace: Self)
        ensures
            workspace@ == (WorkspaceView { base_dir: optional_text(dir), ..self@ }),
    {
        let mut workspace = self;
        workspace.project_dir = dir;
        workspace
    }

    pub fn get_base_dir(&self) -> (dir: &Option<String>)
        ensures
            optional_text(*dir) == self@.base_dir,
    {
        &self.project_dir
    }
}

} // verus!
