//! Projects.

use vstd::prelude::*;
use crate::data::instance::Instance;
use crate::objects::vec::VecIndex;
use crate::time::Timestamp;

verus! {

/// An instance of a project.
///
/// This represents an instance of a project. There may be multiple instances of the project on
/// different instances or even on a given instance.
#[derive(Debug)]
pub struct Project {
    /// The name of the project.
    ///
    /// This is informal and a project may exist at multiple locations.
    pub name: String,
    /// The ID of the project.
    pub forge_id: u64,
    /// The URL of the project.
    pub url: String,
    /// The instance on which the project lives.
    pub instance: VecIndex<Instance>,
    /// The path to the repository on the instance.
    pub instance_path: String,
    /// When the monitoring tool first fetched information.
    pub cim_fetched_at: Timestamp,
    /// When the monitoring tool last updated this information.
    pub cim_refreshed_at: Timestamp,
}

/// What a [`Project`] says.
pub struct ProjectView {
    pub name: Seq<char>,
    pub forge_id: u64,
    pub url: Seq<char>,
    pub instance: VecIndex<Instance>,
    pub instance_path: Seq<char>,
    pub cim_fetched_at: Timestamp,
    pub cim_refreshed_at: Timestamp,
}

impl View for Project {
    type V = ProjectView;

    open spec fn view(&self) -> ProjectView {
        ProjectView {
            name: self.name@,
            forge_id: self.forge_id,
            url: self.url@,
            instance: self.instance,
            instance_path: self.instance_path@,
            cim_fetched_at: self.cim_fetched_at,
            cim_refreshed_at: self.cim_refreshed_at,
        }
    }
}

impl Clone for Project {
    fn clone(&self) -> (r: Self)
        ensures
            r@ == self@,
    {
        Project {
            name: self.name.clone(),
            forge_id: self.forge_id,
            url: self.url.clone(),
            instance: self.instance,
            instance_path: self.instance_path.clone(),
            cim_fetched_at: self.cim_fetched_at,
            cim_refreshed_at: self.cim_refreshed_at,
        }
    }
}

impl ProjectView {
    /// The record was first fetched no later than it was last refreshed.
    pub open spec fn stamps_ordered(self) -> bool {
        self.cim_fetched_at.spec_at_most(self.cim_refreshed_at)
    }
}

/// Why a [`Project`] could not be built.
#[derive(Debug)]
pub enum ProjectBuilderError {
    /// A required field was never set.
    UninitializedField(&'static str),
    /// The fields that were set do not make a valid value.
    ValidationError(String),
}

/// Collects the fields of a [`Project`].
#[derive(Debug)]
pub struct ProjectBuilder {
    pub name: Option<String>,
    pub forge_id: Option<u64>,
    pub url: Option<String>,
    pub instance: Option<VecIndex<Instance>>,
    pub instance_path: Option<String>,
}

impl Project {
    /// Create a builder for the structure.
    pub fn builder() -> (r: ProjectBuilder)
        ensures
            r == ProjectBuilder::empty(),
    {
        ProjectBuilder {
            name: None,
            forge_id: None,
            url: None,
            instance: None,
            instance_path: None,
        }
    }
}

impl ProjectBuilder {
    /// The builder with no field set.
    pub open spec fn empty() -> ProjectBuilder {
        ProjectBuilder {
            name: None,
            forge_id: None,
            url: None,
            instance: None,
            instance_path: None,
        }
    }

    /// The first required field, in declaration order, that is not set.
    pub open spec fn missing(self) -> Option<Seq<char>> {
        if self.forge_id is None {
            Some("forge_id"@)
        } else if self.instance is None {
            Some("instance"@)
        } else {
            None
        }
    }

    /// What the builder makes at the instant `now`, once every required field
    /// is set.
    pub open spec fn record(self, now: Timestamp) -> ProjectView {
        ProjectView {
            name: match self.name {
                Some(v) => v@,
                None => Seq::empty(),
            },
            forge_id: self.forge_id.unwrap(),
            url: match self.url {
                Some(v) => v@,
                None => Seq::empty(),
            },
            instance: self.instance.unwrap(),
            instance_path: match self.instance_path {
                Some(v) => v@,
                None => Seq::empty(),
            },
            cim_fetched_at: now,
            cim_refreshed_at: now,
        }
    }

    /// The name of the project.
    ///
    /// This is informal and a project may exist at multiple locations.
    pub fn name(self, value: &str) -> (r: Self)
        ensures
            r.name is Some,
            r.name.unwrap()@ == value@,
            r == (ProjectBuilder { name: r.name, ..self }),
    {
        ProjectBuilder { name: Some(value.to_owned()), ..self }
    }

    /// The ID of the project.
    pub fn forge_id(self, value: u64) -> (r: Self)
        ensures
            r == (ProjectBuilder { forge_id: Some(value), ..self }),
    {
        ProjectBuilder { forge_id: Some(value), ..self }
    }

    /// The URL of the project.
    pub fn url(self, value: &str) -> (r: Self)
        ensures
            r.url is Some,
            r.url.unwrap()@ == value@,
            r == (ProjectBuilder { url: r.url, ..self }),
    {
        ProjectBuilder { url: Some(value.to_owned()), ..self }
    }

    /// The instance on which the project lives.
    pub fn instance(self, value: VecIndex<Instance>) -> (r: Self)
        ensures
            r == (ProjectBuilder { instance: Some(value), ..self }),
    {
        ProjectBuilder { instance: Some(value), ..self }
    }

    /// The path to the repository on the instance.
    pub fn instance_path(self, value: &str) -> (r: Self)
        ensures
            r.instance_path is Some,
            r.instance_path.unwrap()@ == value@,
            r == (ProjectBuilder { instance_path: r.instance_path, ..self }),
    {
        ProjectBuilder { instance_path: Some(value.to_owned()), ..self }
    }

    /// Build the project as first seen at `now`, or name the first required field
    /// that is missing.
    pub fn build_at(self, now: Timestamp) -> (r: Result<Project, ProjectBuilderError>)
        ensures
            match r {
                Ok(v) => self.missing() is None && v@ == self.record(now),
                Err(e) => e matches ProjectBuilderError::UninitializedField(f)
                    && self.missing() == Some(f@),
            },
    {
        let forge_id = match self.forge_id {
            Some(v) => v,
            None => return Err(ProjectBuilderError::UninitializedField("forge_id")),
        };
        let instance = match self.instance {
            Some(v) => v,
            None => return Err(ProjectBuilderError::UninitializedField("instance")),
        };
        let name = match self.name {
            Some(v) => v,
            None => String::new(),
        };
        let url = match self.url {
            Some(v) => v,
            None => String::new(),
        };
        let instance_path = match self.instance_path {
            Some(v) => v,
            None => String::new(),
        };
        Ok(Project {
            name,
            forge_id,
            url,
            instance,
            instance_path,
            cim_fetched_at: now,
            cim_refreshed_at: now,
        })
    }

    /// Build the project as first seen now, or name the first required field that
    /// is missing.
    pub fn build(self) -> (r: Result<Project, ProjectBuilderError>)
        ensures
            match r {
                Ok(v) => self.missing() is None && v@ == self.record(v.cim_fetched_at),
                Err(e) => e matches ProjectBuilderError::UninitializedField(f)
                    && self.missing() == Some(f@),
            },
    {
        self.build_at(Timestamp::now())
    }
}

} // verus!
