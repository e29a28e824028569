//! The engine's entry point for applications: the two managers side by side.

use vstd::prelude::*;
use crate::project_manager::ProjectManager;
use crate::workspace_manager::WorkspaceManager;

verus! {

/// The managers an application works with.
pub struct AppEngine<'pm, 'ws> {
    project_manager: &'pm ProjectManager<'pm>,
    workspace_manager: &'ws WorkspaceManager<'ws>,
}

impl<'pm, 'ws> AppEngine<'pm, 'ws> {
    /// The manager of projects.
    pub closed spec fn projects(&self) -> &ProjectManager<'pm> {
        self.project_manager
    }

    /// The manager of workspaces.
    pub closed spec fn workspaces(&self) -> &WorkspaceManager<'ws> {
        self.workspace_manager
    }

    pub fn new(project_manager: &'pm ProjectManager<'pm>, workspace_manager: &'ws WorkspaceManager<'ws>) -> (engine: Self)
        ensures
            engine.projects() == project_manager,
            engine.workspaces() == workspace_manager,
    {
        AppEngine { project_manager, workspace_manager }
    }

    pub fn project_manager(&self) -> (manager: &'pm ProjectManager<'pm>)
        ensures
            manager == self.projects(),
    {
        self.project_manager
    }

    pub fn workspace_manager(&self) -> (manager: &'ws WorkspaceManager<'ws>)
        ensures
            manager == self.workspaces(),
    {
        self.workspace_manager
    }
}

} // verus!
