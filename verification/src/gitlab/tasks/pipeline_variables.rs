//! Variables of pipelines and schedules, as GitLab reports them.

use vstd::prelude::*;
use crate::data::pipeline_variables::{
    pairs_view, PipelineVariable, PipelineVariableType, PipelineVariableView, PipelineVariables,
    PipelineVariablesView,
};
use crate::text::str_eq;

verus! {

/// How GitLab makes a variable available.
#[derive(Debug, Clone, Copy, PartialEq, Eq, Structural)]
pub enum GitlabVariableType {
    /// `env_var`: the environment variable holds the value.
    EnvironmentVariable,
    /// `file`: the environment variable holds the path of a file with the value.
    File,
}

impl GitlabVariableType {
    /// The type that GitLab writes as `name`.
    pub open spec fn spec_from_name(name: Seq<char>) -> Option<GitlabVariableType> {
        if name == "env_var"@ {
            Some(GitlabVariableType::EnvironmentVariable)
        } else if name == "file"@ {
            Some(GitlabVariableType::File)
        } else {
            None
        }
    }

    /// The type of the monitoring model that stands for this one.
    pub open spec fn spec_into(self) -> PipelineVariableType {
        match self {
            GitlabVariableType::EnvironmentVariable => PipelineVariableType::String,
            GitlabVariableType::File => PipelineVariableType::File,
        }
    }

    /// The type that GitLab writes as `name`.
    pub fn from_name(name: &str) -> (r: Option<GitlabVariableType>)
        ensures
            r == Self::spec_from_name(name@),
    {
        if str_eq(name, "env_var") {
            Some(GitlabVariableType::EnvironmentVariable)
        } else if str_eq(name, "file") {
            Some(GitlabVariableType::File)
        } else {
            None
        }
    }

    /// The type of the monitoring model that stands for this one.
    pub fn into_model(self) -> (r: PipelineVariableType)
        ensures
            r == self.spec_into(),
    {
        match self {
            GitlabVariableType::EnvironmentVariable => PipelineVariableType::String,
            GitlabVariableType::File => PipelineVariableType::File,
        }
    }
}

/// A variable as GitLab reports it.
#[derive(Debug)]
pub struct GitlabPipelineVariable {
    pub variable_type: GitlabVariableType,
    pub key: String,
    pub value: String,
}

/// What the monitoring model says of a variable that GitLab reports: its
/// value and type, unprotected and in no environment.
pub open spec fn variable_of(gpv: GitlabPipelineVariable) -> PipelineVariableView {
    PipelineVariableView {
        value: gpv.value@,
        type_: gpv.variable_type.spec_into(),
        protected: false,
        environment: None,
    }
}

/// The keys of the reported variables with what the model says of each.
pub open spec fn wire_pairs(gpvs: Seq<GitlabPipelineVariable>) -> Seq<
    (Seq<char>, PipelineVariableView),
> {
    Seq::new(gpvs.len(), |i: int| (gpvs[i].key@, variable_of(gpvs[i])))
}

/// Convert a set of GitLab variables to the monitoring representation.
///
/// Where a key is reported twice, the later variable stands.
pub fn gitlab_variables(gpvs: Vec<GitlabPipelineVariable>) -> (r: PipelineVariables)
    ensures
        r@ == PipelineVariablesView::collect(wire_pairs(gpvs@)),
        r@.keys_unique(),
{
    let mut pairs: Vec<(String, PipelineVariable)> = Vec::new();
    let mut i: usize = 0;
    while i < gpvs.len()
        invariant
            i <= gpvs.len(),
            pairs@.len() == i,
            forall|j: int|
                0 <= j < i ==> (#[trigger] pairs@[j]).0@ == gpvs@[j].key@ && pairs@[j].1@
                    == variable_of(gpvs@[j]),
        decreases gpvs.len() - i,
    {
        let gpv = &gpvs[i];
        let built = PipelineVariable::builder().value(gpv.value.as_str()).type_(
            gpv.variable_type.into_model(),
        ).build();
        match built {
            Ok(variable) => {
                pairs.push((gpv.key.clone(), variable));
            },
            Err(_) => {
                assert(false);
            },
        }
        i += 1;
    }
    assert(pairs_view(pairs@) =~= wire_pairs(gpvs@));
    PipelineVariables::from_pairs(pairs)
}

} // verus!
