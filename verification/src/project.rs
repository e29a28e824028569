//! A project: a named unit of buildable work with an identity, an optional
//! source-control configuration and the pipelines it may run.

use vstd::prelude::*;
use crate::source_control::SourceControlCFG;

verus! {

/// The plain data of a project.
pub struct ProjectView {
    pub id: Seq<char>,
    pub name: Seq<char>,
    pub pipelines: Seq<Seq<char>>,
}

/// The shape of a generated identity: 36 characters in five groups, with a
/// hyphen after the 8th, 12th, 16th and 20th digit, and the version digit `4`
/// at the head of the third group.
pub open spec fn is_generated_id(id: Seq<char>) -> bool {
    &&& id.len() == 36
    &&& id[8] == '-'
    &&& id[13] == '-'
    &&& id[18] == '-'
    &&& id[23] == '-'
    &&& id[14] == '4'
}

/// Draws a random version-4 UUID with `uuid::Uuid::new_v4` and writes it in
/// the hyphenated lower-case form of its `Display`. The value is random; the
/// contract states the shape that every such text has.
#[verifier::external_body]
fn generate_id() -> (id: String)
    ensures
        is_generated_id(id@),
{
    uuid::Uuid::new_v4().to_string()
}

/// A project. Its fields are set by the consuming setters, each of which
/// hands back the project with one field replaced.
pub struct Project {
    name: String,
    source_control: Option<Box<dyn SourceControlCFG>>,
    pipeline: Vec<String>,
    id: String,
}

impl View for Project {
    type V = ProjectView;

    closed spec fn view(&self) -> ProjectView {
        ProjectView {
            id: self.id@,
            name: self.name@,
            pipelines: crate::text::texts(self.pipeline@),
        }
    }
}

impl Project {
    /// The source-control configuration the project holds, if any.
    pub closed spec fn source_control(&self) -> Option<Box<dyn SourceControlCFG>> {
        self.source_control
    }

    /// A project under a freshly generated identity, with no source control
    /// and no pipelines.
    pub fn new(name: String) -> (project: Self)
        ensures
            project@.name == name@,
            project@.pipelines == Seq::<Seq<char>>::empty(),
            is_generated_id(project@.id),
            project.source_control() is None,
    {
        let project = Project { name, source_control: None, pipeline: Vec::new(), id: generate_id() };
        project
    }

    pub fn get_name(&self) -> (name: &String)
        ensures
            name@ == self@.name,
    {
        &self.name
    }

    pub fn set_name(self, name: String) -> (project: Self)
        ensures
            project@ == (ProjectView { name: name@, ..self@ }),
            project.source_control() == self.source_control(),
    {
        let mut project = self;
        project.name = name;
        project
    }

    pub fn set_source_control(self, source_control_cfg: Option<Box<dyn SourceControlCFG>>) -> (project: Self)
        ensures
            project@ == self@,
            project.source_control() == source_control_cfg,
    {
        let mut project = self;
        project.source_control = source_control_cfg;
        project
    }

    pub fn get_source_control(&self) -> (source_control: Option<&Box<dyn SourceControlCFG>>)
        ensures
            source_control is Some <==> self.source_control() is Some,
            source_control is Some ==> *source_control->0 == self.source_control()->0,
    {
        self.source_control.as_ref()
    }

    pub fn set_id(self, uuid: String) -> (project: Self)
        ensures
            project@ == (ProjectView { id: uuid@, ..self@ }),
            project.source_control() == self.source_control(),
    {
        let mut project = self;
        project.id = uuid;
        project
    }

    pub fn get_id(&self) -> (id: &String)
        ensures
            id@ == self@.id,
    {
        &self.id
    }

    pub fn set_pipelines(self, pipelines: Vec<String>) -> (project: Self)
        ensures
            project@ == (ProjectView { pipelines: crate::text::texts(pipelines@), ..self@ }),
            project.source_control() == self.source_control(),
    {
        let mut project = self;
        project.pipeline = pipelines;
        project
    }

    pub fn get_pipelines(&self) -> (pipelines: &Vec<String>)
        ensures
            crate::text::texts(pipelines@) == self@.pipelines,
    {
        &self.pipeline
    }
}

} // verus!
