//! Environment variables as an ordered list of bindings, where a later
//! binding of a name shadows the earlier ones. Laying one set over another is
//! then putting the upper list behind the lower one.

use vstd::prelude::*;

verus! {

/// The variables that a list of bindings defines: each name with the value of
/// its last binding.
pub open spec fn bindings(entries: Seq<(String, String)>) -> Map<Seq<char>, Seq<char>>
    decreases entries.len(),
{
    if entries.len() == 0 {
        Map::empty()
    } else {
        bindings(entries.drop_last()).insert(entries.last().0@, entries.last().1@)
    }
}

/// The variables of three layers, lowest first: a name takes its value from
/// the highest layer that defines it.
pub open spec fn layered(
    global: Map<Seq<char>, Seq<char>>,
    pipeline: Map<Seq<char>, Seq<char>>,
    step: Map<Seq<char>, Seq<char>>,
) -> Map<Seq<char>, Seq<char>> {
    global.union_prefer_right(pipeline).union_prefer_right(step)
}

/// A name bound at `at` and nowhere behind it has the value bound at `at`.
pub proof fn lemma_last_binding_wins(entries: Seq<(String, String)>, name: Seq<char>, at: int)
    requires
        0 <= at < entries.len(),
        entries[at].0@ == name,
        forall|j: int| at < j < entries.len() ==> entries[j].0@ != name,
    ensures
        bindings(entries).contains_key(name),
        bindings(entries)[name] == entries[at].1@,
    decreases entries.len(),
{
    if at < entries.len() - 1 {
        lemma_last_binding_wins(entries.drop_last(), name, at);
    }
}

/// A name that no binding mentions is not defined.
pub proof fn lemma_unbound_is_absent(entries: Seq<(String, String)>, name: Seq<char>)
    requires
        forall|j: int| 0 <= j < entries.len() ==> entries[j].0@ != name,
    ensures
        !bindings(entries).contains_key(name),
    decreases entries.len(),
{
    if entries.len() > 0 {
        lemma_unbound_is_absent(entries.drop_last(), name);
    }
}

/// Bindings put behind others lie over them.
pub proof fn lemma_appending_overlays(lower: Seq<(String, String)>, upper: Seq<(String, String)>)
    ensures
        bindings(lower + upper) == bindings(lower).union_prefer_right(bindings(upper)),
    decreases upper.len(),
{
    if upper.len() > 0 {
        lemma_appending_overlays(lower, upper.drop_last());
        assert((lower + upper).drop_last() =~= lower + upper.drop_last());
    }
}

/// In three layers the step's value of a name wins over the pipeline's, and
/// the pipeline's over the global one; a name is defined exactly when some
/// layer defines it.
pub proof fn higher_layer_wins(
    global: Map<Seq<char>, Seq<char>>,
    pipeline: Map<Seq<char>, Seq<char>>,
    step: Map<Seq<char>, Seq<char>>,
    name: Seq<char>,
)
    ensures
        layered(global, pipeline, step).contains_key(name) <==> global.contains_key(name)
            || pipeline.contains_key(name) || step.contains_key(name),
        step.contains_key(name) ==> layered(global, pipeline, step)[name] == step[name],
        !step.contains_key(name) && pipeline.contains_key(name) ==> layered(global, pipeline, step)[name]
            == pipeline[name],
        !step.contains_key(name) && !pipeline.contains_key(name) && global.contains_key(name) ==> layered(
            global,
            pipeline,
            step,
        )[name] == global[name],
{
}

/// A set of environment variables.
#[derive(Debug)]
pub struct EnvironmentVariables {
    entries: Vec<(String, String)>,
}

impl View for EnvironmentVariables {
    type V = Map<Seq<char>, Seq<char>>;

    closed spec fn view(&self) -> Map<Seq<char>, Seq<char>> {
        bindings(self.entries@)
    }
}

/// The variables of a layer that may be missing: none, if it is.
pub open spec fn layer(variables: Option<EnvironmentVariables>) -> Map<Seq<char>, Seq<char>> {
    match variables {
        Some(defined) => defined@,
        None => Map::empty(),
    }
}

/// Puts copies of the bindings of `source` behind those of `target`.
fn append_copies(target: &mut Vec<(String, String)>, source: &Vec<(String, String)>)
    ensures
        final(target)@ == old(target)@ + source@,
{
    let mut i: usize = 0;
    while i < source.len()
        invariant
            i <= source.len(),
            target@ == old(target)@ + source@.take(i as int),
        decreases source.len() - i,
    {
        let name = source[i].0.clone();
        let value = source[i].1.clone();
        target.push((name, value));
        i += 1;
    }
}

impl EnvironmentVariables {
    /// No variables.
    pub fn new() -> (variables: Self)
        ensures
            variables@ == Map::<Seq<char>, Seq<char>>::empty(),
    {
        EnvironmentVariables { entries: Vec::new() }
    }

    /// The variables that `entries` bind, a later binding of a name taking the
    /// place of an earlier one.
    pub fn from_entries(entries: Vec<(String, String)>) -> (variables: Self)
        ensures
            variables@ == bindings(entries@),
    {
        EnvironmentVariables { entries }
    }

    /// The bindings in the order they were made, shadowed ones included.
    pub fn entries(&self) -> (entries: &Vec<(String, String)>)
        ensures
            bindings(entries@) == self@,
    {
        &self.entries
    }

    /// Gives `name` the value `value`, whatever it had before.
    pub fn set(&mut self, name: String, value: String)
        ensures
            final(self)@ == old(self)@.insert(name@, value@),
    {
        self.entries.push((name, value));
        assert(self.entries@.drop_last() =~= old(self).entries@);
    }

    /// The value of `name`, if it is defined.
    pub fn get(&self, name: &String) -> (value: Option<&String>)
        ensures
            match value {
                Some(found) => self@.contains_key(name@) && found@ == self@[name@],
                None => !self@.contains_key(name@),
            },
    {
        let mut i: usize = self.entries.len();
        while i > 0
            invariant
                i <= self.entries.len(),
                forall|j: int| i <= j < self.entries.len() ==> self.entries[j].0@ != name@,
            decreases i,
        {
            i -= 1;
            if self.entries[i].0 == *name {
                proof {
                    lemma_last_binding_wins(self.entries@, name@, i as int);
                }
                return Some(&self.entries[i].1);
            }
        }
        proof {
            lemma_unbound_is_absent(self.entries@, name@);
        }
        None
    }

    /// These variables with those of `upper` laid over them: where both
    /// define a name, the value of `upper` stands.
    pub fn overlay(&self, upper: &EnvironmentVariables) -> (merged: Self)
        ensures
            merged@ == self@.union_prefer_right(upper@),
    {
        let mut entries: Vec<(String, String)> = Vec::new();
        append_copies(&mut entries, &self.entries);
        append_copies(&mut entries, &upper.entries);
        proof {
            lemma_appending_overlays(self.entries@, upper.entries@);
        }
        EnvironmentVariables { entries }
    }

    /// These variables with those of `upper`, where there are any, laid over
    /// them.
    pub fn overlay_optional(&self, upper: &Option<EnvironmentVariables>) -> (merged: Self)
        ensures
            merged@ == self@.union_prefer_right(layer(*upper)),
    {
        match upper {
            Some(defined) => self.overlay(defined),
            None => self.overlay(&EnvironmentVariables::new()),
        }
    }
}

} // verus!
