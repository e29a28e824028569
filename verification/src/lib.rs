//! Orchestration core of a build engine: projects and workspaces kept in a
//! pluggable store, source acquisition, and step-by-step pipeline execution
//! through a registry of executors.

pub mod errors;
pub mod text;
pub mod persistence;
pub mod store_manager;
pub mod source_control;
pub mod project;
pub mod workspace;
pub mod lifecycle;
pub mod project_manager;
pub mod workspace_manager;
pub mod environment;
pub mod pipeline;
pub mod pipeline_executor;
pub mod build_orchestrator;
pub mod app_engine;
