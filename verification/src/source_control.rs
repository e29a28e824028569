//! What a project needs from a source-control system. Integrations implement
//! it; the engine never looks at anything specific to one system.
//!
//! `clone_allows` says which answers cloning may give. An integration that
//! states nothing allows every answer; one that Verus does not see is taken
//! at its word.

use vstd::prelude::*;
use crate::errors::EngineError;

verus! {

/// The source control of a project: what it is called, how its source is
/// fetched, and where its pipeline is described.
pub trait SourceControlCFG {
    /// Whether `answer` is one that cloning through this configuration may give.
    open spec fn clone_allows(&self, answer: Result<(), Box<dyn EngineError>>) -> bool {
        true
    }

    fn get_source_control_name(&self) -> String;

    fn clone_source(&self) -> (answer: Result<(), Box<dyn EngineError>>)
        ensures
            self.clone_allows(answer),
    ;

    fn get_pipeline(&self) -> ();
}

} // verus!
