//! Deployments.

use vstd::prelude::*;
use crate::data::environment::Environment;
use crate::data::pipeline::Pipeline;
use crate::objects::vec::VecIndex;
use crate::text::str_eq;
use crate::time::Timestamp;

verus! {

/// The status of a deployment.
#[derive(Debug, Clone, Copy, PartialEq, Eq, Structural)]
pub enum DeploymentStatus {
    /// The deployment has been created.
    Created,
    /// The deployment is running.
    Running,
    /// The deployment completed successfully.
    Success,
    /// The deployment completed with failure.
    Failed,
    /// The deployment was canceled.
    Canceled,
    /// The deployment is blocked.
    Blocked,
}

impl DeploymentStatus {
    /// The canonical name of the value.
    pub open spec fn spec_name(self) -> Seq<char> {
        match self {
            DeploymentStatus::Created => "created"@,
            DeploymentStatus::Running => "running"@,
            DeploymentStatus::Success => "success"@,
            DeploymentStatus::Failed => "failed"@,
            DeploymentStatus::Canceled => "canceled"@,
            DeploymentStatus::Blocked => "blocked"@,
        }
    }

    /// The value with a given canonical name, if there is one.
    pub open spec fn spec_from_name(name: Seq<char>) -> Option<DeploymentStatus> {
        if name == "created"@ {
            Some(DeploymentStatus::Created)
        } else if name == "running"@ {
            Some(DeploymentStatus::Running)
        } else if name == "success"@ {
            Some(DeploymentStatus::Success)
        } else if name == "failed"@ {
            Some(DeploymentStatus::Failed)
        } else if name == "canceled"@ {
            Some(DeploymentStatus::Canceled)
        } else if name == "blocked"@ {
            Some(DeploymentStatus::Blocked)
        } else {
            None
        }
    }

    /// The canonical name of the value.
    pub fn name(self) -> (r: &'static str)
        ensures
            r@ == self.spec_name(),
    {
        match self {
            DeploymentStatus::Created => "created",
            DeploymentStatus::Running => "running",
            DeploymentStatus::Success => "success",
            DeploymentStatus::Failed => "failed",
            DeploymentStatus::Canceled => "canceled",
            DeploymentStatus::Blocked => "blocked",
        }
    }

    /// The value named by `name`.
    pub fn from_name(name: &str) -> (r: Option<DeploymentStatus>)
        ensures
            r == Self::spec_from_name(name@),
    {
        if str_eq(name, "created") {
            Some(DeploymentStatus::Created)
        } else if str_eq(name, "running") {
            Some(DeploymentStatus::Running)
        } else if str_eq(name, "success") {
            Some(DeploymentStatus::Success)
        } else if str_eq(name, "failed") {
            Some(DeploymentStatus::Failed)
        } else if str_eq(name, "canceled") {
            Some(DeploymentStatus::Canceled)
        } else if str_eq(name, "blocked") {
            Some(DeploymentStatus::Blocked)
        } else {
            None
        }
    }
}

/// Every value is found again by its canonical name.
pub proof fn lemma_deployment_status_name_round_trip(value: DeploymentStatus)
    ensures
        DeploymentStatus::spec_from_name(value.spec_name()) == Some(value),
{
    reveal_strlit("created");
    reveal_strlit("running");
    reveal_strlit("success");
    reveal_strlit("failed");
    reveal_strlit("canceled");
    reveal_strlit("blocked");
    assert("created"@.len() == 7);
    assert("running"@.len() == 7);
    assert("success"@.len() == 7);
    assert("failed"@.len() == 6);
    assert("canceled"@.len() == 8);
    assert("blocked"@.len() == 7);
    assert("created"@[0] != "running"@[0]);
    assert("created"@[0] != "success"@[0]);
    assert("running"@[0] != "success"@[0]);
    assert("created"@[0] != "blocked"@[0]);
    assert("running"@[0] != "blocked"@[0]);
    assert("success"@[0] != "blocked"@[0]);
}

/// A deployment into an environment.
#[derive(Debug)]
pub struct Deployment {
    /// The pipeline which created the deployment.
    pub pipeline: VecIndex<Pipeline>,
    /// The environment which was deployed into.
    pub environment: VecIndex<Environment>,
    /// The ID of the deployment.
    pub forge_id: u64,
    /// When the deployment was created.
    pub created_at: Timestamp,
    /// When the deployment was updated.
    pub updated_at: Timestamp,
    /// When the deployment completed.
    pub finished_at: Option<Timestamp>,
    /// The status of the deployment.
    pub status: DeploymentStatus,
    /// When the monitoring tool first fetched information.
    pub cim_fetched_at: Timestamp,
    /// When the monitoring tool last updated this information.
    pub cim_refreshed_at: Timestamp,
}

/// What a [`Deployment`] says.
pub struct DeploymentView {
    pub pipeline: VecIndex<Pipeline>,
    pub environment: VecIndex<Environment>,
    pub forge_id: u64,
    pub created_at: Timestamp,
    pub updated_at: Timestamp,
    pub finished_at: Option<Timestamp>,
    pub status: DeploymentStatus,
    pub cim_fetched_at: Timestamp,
    pub cim_refreshed_at: Timestamp,
}

impl View for Deployment {
    type V = DeploymentView;

    open spec fn view(&self) -> DeploymentView {
        DeploymentView {
            pipeline: self.pipeline,
            environment: self.environment,
            forge_id: self.forge_id,
            created_at: self.created_at,
            updated_at: self.updated_at,
            finished_at: self.finished_at,
            status: self.status,
            cim_fetched_at: self.cim_fetched_at,
            cim_refreshed_at: self.cim_refreshed_at,
        }
    }
}

impl Clone for Deployment {
    fn clone(&self) -> (r: Self)
        ensures
            r@ == self@,
    {
        Deployment {
            pipeline: self.pipeline,
            environment: self.environment,
            forge_id: self.forge_id,
            created_at: self.created_at,
            updated_at: self.updated_at,
            finished_at: self.finished_at,
            status: self.status,
            cim_fetched_at: self.cim_fetched_at,
            cim_refreshed_at: self.cim_refreshed_at,
        }
    }
}

impl DeploymentView {
    /// The record was first fetched no later than it was last refreshed.
    pub open spec fn stamps_ordered(self) -> bool {
        self.cim_fetched_at.spec_at_most(self.cim_refreshed_at)
    }
}

/// Why a [`Deployment`] could not be built.
#[derive(Debug)]
pub enum DeploymentBuilderError {
    /// A required field was never set.
    UninitializedField(&'static str),
    /// The fields that were set do not make a valid value.
    ValidationError(String),
}

/// Collects the fields of a [`Deployment`].
#[derive(Debug)]
pub struct DeploymentBuilder {
    pub pipeline: Option<VecIndex<Pipeline>>,
    pub environment: Option<VecIndex<Environment>>,
    pub forge_id: Option<u64>,
    pub created_at: Option<Timestamp>,
    pub updated_at: Option<Timestamp>,
    pub finished_at: Option<Option<Timestamp>>,
    pub status: Option<DeploymentStatus>,
}

impl Deployment {
    /// Create a builder for the structure.
    pub fn builder() -> (r: DeploymentBuilder)
        ensures
            r == DeploymentBuilder::empty(),
    {
        DeploymentBuilder {
            pipeline: None,
            environment: None,
            forge_id: None,
            created_at: None,
            updated_at: None,
            finished_at: None,
            status: None,
        }
    }
}

impl DeploymentBuilder {
    /// The builder with no field set.
    pub open spec fn empty() -> DeploymentBuilder {
        DeploymentBuilder {
            pipeline: None,
            environment: None,
            forge_id: None,
            created_at: None,
            updated_at: None,
            finished_at: None,
            status: None,
        }
    }

    /// The first required field, in declaration order, that is not set.
    pub open spec fn missing(self) -> Option<Seq<char>> {
        if self.pipeline is None {
            Some("pipeline"@)
        } else if self.environment is None {
            Some("environment"@)
        } else if self.forge_id is None {
            Some("forge_id"@)
        } else if self.created_at is None {
            Some("created_at"@)
        } else if self.updated_at is None {
            Some("updated_at"@)
        } else if self.status is None {
            Some("status"@)
        } else {
            None
        }
    }

    /// What the builder makes at the instant `now`, once every required field
    /// is set.
    pub open spec fn record(self, now: Timestamp) -> DeploymentView {
        DeploymentView {
            pipeline: self.pipeline.unwrap(),
            environment: self.environment.unwrap(),
            forge_id: self.forge_id.unwrap(),
            created_at: self.created_at.unwrap(),
            updated_at: self.updated_at.unwrap(),
            finished_at: match self.finished_at {
                Some(v) => v,
                None => None,
            },
            status: self.status.unwrap(),
            cim_fetched_at: now,
            cim_refreshed_at: now,
        }
    }

    /// The pipeline which created the deployment.
    pub fn pipeline(self, value: VecIndex<Pipeline>) -> (r: Self)
        ensures
            r == (DeploymentBuilder { pipeline: Some(value), ..self }),
    {
        DeploymentBuilder { pipeline: Some(value), ..self }
    }

    /// The environment which was deployed into.
    pub fn environment(self, value: VecIndex<Environment>) -> (r: Self)
        ensures
            r == (DeploymentBuilder { environment: Some(value), ..self }),
    {
        DeploymentBuilder { environment: Some(value), ..self }
    }

    /// The ID of the deployment.
    pub fn forge_id(self, value: u64) -> (r: Self)
        ensures
            r == (DeploymentBuilder { forge_id: Some(value), ..self }),
    {
        DeploymentBuilder { forge_id: Some(value), ..self }
    }

    /// When the deployment was created.
    pub fn created_at(self, value: Timestamp) -> (r: Self)
        ensures
            r == (DeploymentBuilder { created_at: Some(value), ..self }),
    {
        DeploymentBuilder { created_at: Some(value), ..self }
    }

    /// When the deployment was updated.
    pub fn updated_at(self, value: Timestamp) -> (r: Self)
        ensures
            r == (DeploymentBuilder { updated_at: Some(value), ..self }),
    {
        DeploymentBuilder { updated_at: Some(value), ..self }
    }

    /// When the deployment completed.
    pub fn finished_at(self, value: Option<Timestamp>) -> (r: Self)
        ensures
            r == (DeploymentBuilder { finished_at: Some(value), ..self }),
    {
        DeploymentBuilder { finished_at: Some(value), ..self }
    }

    /// The status of the deployment.
    pub fn status(self, value: DeploymentStatus) -> (r: Self)
        ensures
            r == (DeploymentBuilder { status: Some(value), ..self }),
    {
        DeploymentBuilder { status: Some(value), ..self }
    }

    /// Build the deployment as first seen at `now`, or name the first required field
    /// that is missing.
    pub fn build_at(self, now: Timestamp) -> (r: Result<Deployment, DeploymentBuilderError>)
        ensures
            match r {
                Ok(v) => self.missing() is None && v@ == self.record(now),
                Err(e) => e matches DeploymentBuilderError::UninitializedField(f)
                    && self.missing() == Some(f@),
            },
    {
        let pipeline = match self.pipeline {
            Some(v) => v,
            None => return Err(DeploymentBuilderError::UninitializedField("pipeline")),
        };
        let environment = match self.environment {
            Some(v) => v,
            None => return Err(DeploymentBuilderError::UninitializedField("environment")),
        };
        let forge_id = match self.forge_id {
            Some(v) => v,
            None => return Err(DeploymentBuilderError::UninitializedField("forge_id")),
        };
        let created_at = match self.created_at {
            Some(v) => v,
            None => return Err(DeploymentBuilderError::UninitializedField("created_at")),
        };
        let updated_at = match self.updated_at {
            Some(v) => v,
            None => return Err(DeploymentBuilderError::UninitializedField("updated_at")),
        };
        let status = match self.status {
            Some(v) => v,
            None => return Err(DeploymentBuilderError::UninitializedField("status")),
        };
        let finished_at = match self.finished_at {
            Some(v) => v,
            None => None,
        };
        Ok(Deployment {
            pipeline,
            environment,
            forge_id,
            created_at,
            updated_at,
            finished_at,
            status,
            cim_fetched_at: now,
            cim_refreshed_at: now,
        })
    }

    /// Build the deployment as first seen now, or name the first required field that
    /// is missing.
    pub fn build(self) -> (r: Result<Deployment, DeploymentBuilderError>)
        ensures
            match r {
                Ok(v) => self.missing() is None && v@ == self.record(v.cim_fetched_at),
                Err(e) => e matches DeploymentBuilderError::UninitializedField(f)
                    && self.missing() == Some(f@),
            },
    {
        self.build_at(Timestamp::now())
    }
}

} // verus!
