//! Pipeline schedules.

use vstd::prelude::*;
use crate::data::pipeline_variables::{PipelineVariables, PipelineVariablesView};
use crate::data::project::Project;
use crate::data::user::User;
use crate::objects::vec::VecIndex;
use crate::time::Timestamp;

verus! {

/// A pipeline schedule.
#[derive(Debug)]
pub struct PipelineSchedule {
    /// The name of the pipeline schedule.
    pub name: String,
    /// The project the schedule is associated with.
    pub project: VecIndex<Project>,
    /// The ref the pipeline builds when it builds.
    pub ref_: String,
    /// Variables the schedule makes available to pipelines it starts.
    pub variables: PipelineVariables,
    /// The ID of the pipeline schedule.
    pub forge_id: u64,
    /// When the pipeline schedule was created.
    pub created_at: Timestamp,
    /// When the pipeline schedule was last updated.
    pub updated_at: Timestamp,
    /// The owner of the pipeline schedule.
    pub owner: VecIndex<User>,
    /// Whether the pipeline schedule is active or not.
    pub active: bool,
    /// When the schedule will next create a pipeline.
    pub next_run: Option<Timestamp>,
    /// When the monitoring tool first fetched information.
    pub cim_fetched_at: Timestamp,
    /// When the monitoring tool last updated this information.
    pub cim_refreshed_at: Timestamp,
}

/// What a [`PipelineSchedule`] says.
pub struct PipelineScheduleView {
    pub name: Seq<char>,
    pub project: VecIndex<Project>,
    pub ref_: Seq<char>,
    pub variables: PipelineVariablesView,
    pub forge_id: u64,
    pub created_at: Timestamp,
    pub updated_at: Timestamp,
    pub owner: VecIndex<User>,
    pub active: bool,
    pub next_run: Option<Timestamp>,
    pub cim_fetched_at: Timestamp,
    pub cim_refreshed_at: Timestamp,
}

impl View for PipelineSchedule {
    type V = PipelineScheduleView;

    open spec fn view(&self) -> PipelineScheduleView {
        PipelineScheduleView {
            name: self.name@,
            project: self.project,
            ref_: self.ref_@,
            variables: self.variables@,
            forge_id: self.forge_id,
            created_at: self.created_at,
            updated_at: self.updated_at,
            owner: self.owner,
            active: self.active,
            next_run: self.next_run,
            cim_fetched_at: self.cim_fetched_at,
            cim_refreshed_at: self.cim_refreshed_at,
        }
    }
}

impl Clone for PipelineSchedule {
    fn clone(&self) -> (r: Self)
        ensures
            r@ == self@,
    {
        PipelineSchedule {
            name: self.name.clone(),
            project: self.project,
            ref_: self.ref_.clone(),
            variables: self.variables.clone(),
            forge_id: self.forge_id,
            created_at: self.created_at,
            updated_at: self.updated_at,
            owner: self.owner,
            active: self.active,
            next_run: self.next_run,
            cim_fetched_at: self.cim_fetched_at,
            cim_refreshed_at: self.cim_refreshed_at,
        }
    }
}

impl PipelineScheduleView {
    /// The record was first fetched no later than it was last refreshed.
    pub open spec fn stamps_ordered(self) -> bool {
        self.cim_fetched_at.spec_at_most(self.cim_refreshed_at)
    }
}

/// Why a [`PipelineSchedule`] could not be built.
#[derive(Debug)]
pub enum PipelineScheduleBuilderError {
    /// A required field was never set.
    UninitializedField(&'static str),
    /// The fields that were set do not make a valid value.
    ValidationError(String),
}

/// Collects the fields of a [`PipelineSchedule`].
#[derive(Debug)]
pub struct PipelineScheduleBuilder {
    pub name: Option<String>,
    pub project: Option<VecIndex<Project>>,
    pub ref_: Option<String>,
    pub variables: Option<PipelineVariables>,
    pub forge_id: Option<u64>,
    pub created_at: Option<Timestamp>,
    pub updated_at: Option<Timestamp>,
    pub owner: Option<VecIndex<User>>,
    pub active: Option<bool>,
    pub next_run: Option<Option<Timestamp>>,
}

impl PipelineSchedule {
    /// Create a builder for the structure.
    pub fn builder() -> (r: PipelineScheduleBuilder)
        ensures
            r == PipelineScheduleBuilder::empty(),
    {
        PipelineScheduleBuilder {
            name: None,
            project: None,
            ref_: None,
            variables: None,
            forge_id: None,
            created_at: None,
            updated_at: None,
            owner: None,
            active: None,
            next_run: None,
        }
    }
}

impl PipelineScheduleBuilder {
    /// The builder with no field set.
    pub open spec fn empty() -> PipelineScheduleBuilder {
        PipelineScheduleBuilder {
            name: None,
            project: None,
            ref_: None,
            variables: None,
            forge_id: None,
            created_at: None,
            updated_at: None,
            owner: None,
            active: None,
            next_run: None,
        }
    }

    /// The first required field, in declaration order, that is not set.
    pub open spec fn missing(self) -> Option<Seq<char>> {
        if self.project is None {
            Some("project"@)
        } else if self.ref_ is None {
            Some("ref_"@)
        } else if self.forge_id is None {
            Some("forge_id"@)
        } else if self.created_at is None {
            Some("created_at"@)
        } else if self.updated_at is None {
            Some("updated_at"@)
        } else if self.owner is None {
            Some("owner"@)
        } else {
            None
        }
    }

    /// What the builder makes at the instant `now`, once every required field
    /// is set.
    pub open spec fn record(self, now: Timestamp) -> PipelineScheduleView {
        PipelineScheduleView {
            name: match self.name {
                Some(v) => v@,
                None => Seq::empty(),
            },
            project: self.project.unwrap(),
            ref_: self.ref_.unwrap()@,
            variables: match self.variables {
                Some(v) => v@,
                None => PipelineVariablesView::empty(),
            },
            forge_id: self.forge_id.unwrap(),
            created_at: self.created_at.unwrap(),
            updated_at: self.updated_at.unwrap(),
            owner: self.owner.unwrap(),
            active: match self.active {
                Some(v) => v,
                None => false,
            },
            next_run: match self.next_run {
                Some(v) => v,
                None => None,
            },
            cim_fetched_at: now,
            cim_refreshed_at: now,
        }
    }

    /// The name of the pipeline schedule.
    pub fn name(self, value: &str) -> (r: Self)
        ensures
            r.name is Some,
            r.name.unwrap()@ == value@,
            r == (PipelineScheduleBuilder { name: r.name, ..self }),
    {
        PipelineScheduleBuilder { name: Some(value.to_owned()), ..self }
    }

    /// The project the schedule is associated with.
    pub fn project(self, value: VecIndex<Project>) -> (r: Self)
        ensures
            r == (PipelineScheduleBuilder { project: Some(value), ..self }),
    {
        PipelineScheduleBuilder { project: Some(value), ..self }
    }

    /// The ref the pipeline builds when it builds.
    pub fn ref_(self, value: &str) -> (r: Self)
        ensures
            r.ref_ is Some,
            r.ref_.unwrap()@ == value@,
            r == (PipelineScheduleBuilder { ref_: r.ref_, ..self }),
    {
        PipelineScheduleBuilder { ref_: Some(value.to_owned()), ..self }
    }

    /// Variables the schedule makes available to pipelines it starts.
    pub fn variables(self, value: PipelineVariables) -> (r: Self)
        ensures
            r == (PipelineScheduleBuilder { variables: Some(value), ..self }),
    {
        PipelineScheduleBuilder { variables: Some(value), ..self }
    }

    /// The ID of the pipeline schedule.
    pub fn forge_id(self, value: u64) -> (r: Self)
        ensures
            r == (PipelineScheduleBuilder { forge_id: Some(value), ..self }),
    {
        PipelineScheduleBuilder { forge_id: Some(value), ..self }
    }

    /// When the pipeline schedule was created.
    pub fn created_at(self, value: Timestamp) -> (r: Self)
        ensures
            r == (PipelineScheduleBuilder { created_at: Some(value), ..self }),
    {
        PipelineScheduleBuilder { created_at: Some(value), ..self }
    }

    /// When the pipeline schedule was last updated.
    pub fn updated_at(self, value: Timestamp) -> (r: Self)
        ensures
            r == (PipelineScheduleBuilder { updated_at: Some(value), ..self }),
    {
        PipelineScheduleBuilder { updated_at: Some(value), ..self }
    }

    /// The owner of the pipeline schedule.
    pub fn owner(self, value: VecIndex<User>) -> (r: Self)
        ensures
            r == (PipelineScheduleBuilder { owner: Some(value), ..self }),
    {
        PipelineScheduleBuilder { owner: Some(value), ..self }
    }

    /// Whether the pipeline schedule is active or not.
    pub fn active(self, value: bool) -> (r: Self)
        ensures
            r == (PipelineScheduleBuilder { active: Some(value), ..self }),
    {
        PipelineScheduleBuilder { active: Some(value), ..self }
    }

    /// When the schedule will next create a pipeline.
    pub fn next_run(self, value: Option<Timestamp>) -> (r: Self)
        ensures
            r == (PipelineScheduleBuilder { next_run: Some(value), ..self }),
    {
        PipelineScheduleBuilder { next_run: Some(value), ..self }
    }

    /// Build the pipeline schedule as first seen at `now`, or name the first required field
    /// that is missing.
    pub fn build_at(
        self,
        now: Timestamp,
    ) -> (r: Result<PipelineSchedule, PipelineScheduleBuilderError>)
        ensures
            match r {
                Ok(v) => self.missing() is None && v@ == self.record(now),
                Err(e) => e matches PipelineScheduleBuilderError::UninitializedField(f)
                    && self.missing() == Some(f@),
            },
    {
        let project = match self.project {
            Some(v) => v,
            None => return Err(PipelineScheduleBuilderError::UninitializedField("project")),
        };
        let ref_ = match self.ref_ {
            Some(v) => v,
            None => return Err(PipelineScheduleBuilderError::UninitializedField("ref_")),
        };
        let forge_id = match self.forge_id {
            Some(v) => v,
            None => return Err(PipelineScheduleBuilderError::UninitializedField("forge_id")),
        };
        let created_at = match self.created_at {
            Some(v) => v,
            None => return Err(PipelineScheduleBuilderError::UninitializedField("created_at")),
        };
        let updated_at = match self.updated_at {
            Some(v) => v,
            None => return Err(PipelineScheduleBuilderError::UninitializedField("updated_at")),
        };
        let owner = match self.owner {
            Some(v) => v,
            None => return Err(PipelineScheduleBuilderError::UninitializedField("owner")),
        };
        let name = match self.name {
            Some(v) => v,
            None => String::new(),
        };
        let variables = match self.variables {
            Some(v) => v,
            None => PipelineVariables::new(),
        };
        let active = match self.active {
            Some(v) => v,
            None => false,
        };
        let next_run = match self.next_run {
            Some(v) => v,
            None => None,
        };
        Ok(PipelineSchedule {
            name,
            project,
            ref_,
            variables,
            forge_id,
            created_at,
            updated_at,
            owner,
            active,
            next_run,
            cim_fetched_at: now,
            cim_refreshed_at: now,
        })
    }

    /// Build the pipeline schedule as first seen now, or name the first required field that
    /// is missing.
    pub fn build(self) -> (r: Result<PipelineSchedule, PipelineScheduleBuilderError>)
        ensures
            match r {
                Ok(v) => self.missing() is None && v@ == self.record(v.cim_fetched_at),
                Err(e) => e matches PipelineScheduleBuilderError::UninitializedField(f)
                    && self.missing() == Some(f@),
            },
    {
        self.build_at(Timestamp::now())
    }
}

} // verus!
