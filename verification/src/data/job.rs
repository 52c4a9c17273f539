//! Jobs.

use vstd::prelude::*;
use crate::data::deployment::Deployment;
use crate::data::number::Binary64;
use crate::data::pipeline::Pipeline;
use crate::data::pipeline_variables::{PipelineVariables, PipelineVariablesView};
use crate::data::runner::Runner;
use crate::data::user::User;
use crate::objects::vec::VecIndex;
use crate::text::{clone_strings, lemma_texts_empty, str_eq, texts};
use crate::time::Timestamp;

verus! {

/// The state of a job.
#[derive(Debug, Clone, Copy, PartialEq, Eq, Structural)]
pub enum JobState {
    /// The job was created.
    Created,
    /// The job is waiting for a runner.
    Pending,
    /// The job is running.
    Running,
    /// The job failed.
    Failed,
    /// The job completed successfully.
    Success,
    /// The job was canceled.
    Canceled,
    /// The job was skipped.
    Skipped,
    /// The job is waiting for a resource.
    WaitingForResource,
    /// The job is waiting for manual interaction.
    Manual,
    /// The job is scheduled.
    Scheduled,
}

impl JobState {
    /// The canonical name of the value.
    pub open spec fn spec_name(self) -> Seq<char> {
        match self {
            JobState::Created => "created"@,
            JobState::Pending => "pending"@,
            JobState::Running => "running"@,
            JobState::Failed => "failed"@,
            JobState::Success => "success"@,
            JobState::Canceled => "canceled"@,
            JobState::Skipped => "skipped"@,
            JobState::WaitingForResource => "waiting_for_resource"@,
            JobState::Manual => "manual"@,
            JobState::Scheduled => "scheduled"@,
        }
    }

    /// The value with a given canonical name, if there is one.
    pub open spec fn spec_from_name(name: Seq<char>) -> Option<JobState> {
        if name == "created"@ {
            Some(JobState::Created)
        } else if name == "pending"@ {
            Some(JobState::Pending)
        } else if name == "running"@ {
            Some(JobState::Running)
        } else if name == "failed"@ {
            Some(JobState::Failed)
        } else if name == "success"@ {
            Some(JobState::Success)
        } else if name == "canceled"@ {
            Some(JobState::Canceled)
        } else if name == "skipped"@ {
            Some(JobState::Skipped)
        } else if name == "waiting_for_resource"@ {
            Some(JobState::WaitingForResource)
        } else if name == "manual"@ {
            Some(JobState::Manual)
        } else if name == "scheduled"@ {
            Some(JobState::Scheduled)
        } else {
            None
        }
    }

    /// The canonical name of the value.
    pub fn name(self) -> (r: &'static str)
        ensures
            r@ == self.spec_name(),
    {
        match self {
            JobState::Created => "created",
            JobState::Pending => "pending",
            JobState::Running => "running",
            JobState::Failed => "failed",
            JobState::Success => "success",
            JobState::Canceled => "canceled",
            JobState::Skipped => "skipped",
            JobState::WaitingForResource => "waiting_for_resource",
            JobState::Manual => "manual",
            JobState::Scheduled => "scheduled",
        }
    }

    /// The value named by `name`.
    pub fn from_name(name: &str) -> (r: Option<JobState>)
        ensures
            r == Self::spec_from_name(name@),
    {
        if str_eq(name, "created") {
            Some(JobState::Created)
        } else if str_eq(name, "pending") {
            Some(JobState::Pending)
        } else if str_eq(name, "running") {
            Some(JobState::Running)
        } else if str_eq(name, "failed") {
            Some(JobState::Failed)
        } else if str_eq(name, "success") {
            Some(JobState::Success)
        } else if str_eq(name, "canceled") {
            Some(JobState::Canceled)
        } else if str_eq(name, "skipped") {
            Some(JobState::Skipped)
        } else if str_eq(name, "waiting_for_resource") {
            Some(JobState::WaitingForResource)
        } else if str_eq(name, "manual") {
            Some(JobState::Manual)
        } else if str_eq(name, "scheduled") {
            Some(JobState::Scheduled)
        } else {
            None
        }
    }
}

/// Every value is found again by its canonical name.
pub proof fn lemma_job_state_name_round_trip(value: JobState)
    ensures
        JobState::spec_from_name(value.spec_name()) == Some(value),
{
    reveal_strlit("created");
    reveal_strlit("pending");
    reveal_strlit("running");
    reveal_strlit("failed");
    reveal_strlit("success");
    reveal_strlit("canceled");
    reveal_strlit("skipped");
    reveal_strlit("waiting_for_resource");
    reveal_strlit("manual");
    reveal_strlit("scheduled");
    assert("created"@.len() == 7);
    assert("pending"@.len() == 7);
    assert("running"@.len() == 7);
    assert("failed"@.len() == 6);
    assert("success"@.len() == 7);
    assert("canceled"@.len() == 8);
    assert("skipped"@.len() == 7);
    assert("waiting_for_resource"@.len() == 20);
    assert("manual"@.len() == 6);
    assert("scheduled"@.len() == 9);
    assert("created"@[0] != "pending"@[0]);
    assert("created"@[0] != "running"@[0]);
    assert("pending"@[0] != "running"@[0]);
    assert("created"@[0] != "success"@[0]);
    assert("pending"@[0] != "success"@[0]);
    assert("running"@[0] != "success"@[0]);
    assert("created"@[0] != "skipped"@[0]);
    assert("pending"@[0] != "skipped"@[0]);
    assert("running"@[0] != "skipped"@[0]);
    assert("success"@[1] != "skipped"@[1]);
    assert("failed"@[0] != "manual"@[0]);
}

/// A job within a pipeline.
#[derive(Debug)]
pub struct Job {
    /// The name of the job.
    pub name: String,
    /// The stage of the job within its pipeline.
    pub stage: String,
    /// Whether the job is allowed to fail or not.
    pub allow_failure: bool,
    /// The user that created the job.
    pub user: VecIndex<User>,
    /// The tags of the job.
    pub tags: Vec<String>,
    /// Variables for the job.
    pub variables: PipelineVariables,
    /// The state of the job.
    pub state: JobState,
    /// When the job was created.
    pub created_at: Timestamp,
    /// When the job was started.
    pub started_at: Option<Timestamp>,
    /// When the job finished.
    pub finished_at: Option<Timestamp>,
    /// When the job was erased.
    pub erased_at: Option<Timestamp>,
    /// How long the job was queued.
    pub queued_duration: Option<Binary64>,
    /// The runner for the job.
    pub runner: Option<VecIndex<Runner>>,
    /// The deployment the job publishes to.
    pub deployment: Option<VecIndex<Deployment>>,
    /// The ID of the job.
    pub forge_id: u64,
    /// Whether the job is archived or not.
    pub archived: bool,
    /// The URL of the job.
    pub url: String,
    /// The pipeline the job belongs to.
    pub pipeline: VecIndex<Pipeline>,
    /// The coverage reported by the job.
    pub coverage: Option<Binary64>,
    /// When the monitoring tool first fetched information.
    pub cim_fetched_at: Timestamp,
    /// When the monitoring tool last updated this information.
    pub cim_refreshed_at: Timestamp,
}

/// What a [`Job`] says.
pub struct JobView {
    pub name: Seq<char>,
    pub stage: Seq<char>,
    pub allow_failure: bool,
    pub user: VecIndex<User>,
    pub tags: Seq<Seq<char>>,
    pub variables: PipelineVariablesView,
    pub state: JobState,
    pub created_at: Timestamp,
    pub started_at: Option<Timestamp>,
    pub finished_at: Option<Timestamp>,
    pub erased_at: Option<Timestamp>,
    pub queued_duration: Option<Binary64>,
    pub runner: Option<VecIndex<Runner>>,
    pub deployment: Option<VecIndex<Deployment>>,
    pub forge_id: u64,
    pub archived: bool,
    pub url: Seq<char>,
    pub pipeline: VecIndex<Pipeline>,
    pub coverage: Option<Binary64>,
    pub cim_fetched_at: Timestamp,
    pub cim_refreshed_at: Timestamp,
}

impl View for Job {
    type V = JobView;

    open spec fn view(&self) -> JobView {
        JobView {
            name: self.name@,
            stage: self.stage@,
            allow_failure: self.allow_failure,
            user: self.user,
            tags: texts(self.tags@),
            variables: self.variables@,
            state: self.state,
            created_at: self.created_at,
            started_at: self.started_at,
            finished_at: self.finished_at,
            erased_at: self.erased_at,
            queued_duration: self.queued_duration,
            runner: self.runner,
            deployment: self.deployment,
            forge_id: self.forge_id,
            archived: self.archived,
            url: self.url@,
            pipeline: self.pipeline,
            coverage: self.coverage,
            cim_fetched_at: self.cim_fetched_at,
            cim_refreshed_at: self.cim_refreshed_at,
        }
    }
}

impl Clone for Job {
    fn clone(&self) -> (r: Self)
        ensures
            r@ == self@,
    {
        Job {
            name: self.name.clone(),
            stage: self.stage.clone(),
            allow_failure: self.allow_failure,
            user: self.user,
            tags: clone_strings(&self.tags),
            variables: self.variables.clone(),
            state: self.state,
            created_at: self.created_at,
            started_at: self.started_at,
            finished_at: self.finished_at,
            erased_at: self.erased_at,
            queued_duration: self.queued_duration,
            runner: self.runner,
            deployment: self.deployment,
            forge_id: self.forge_id,
            archived: self.archived,
            url: self.url.clone(),
            pipeline: self.pipeline,
            coverage: self.coverage,
            cim_fetched_at: self.cim_fetched_at,
            cim_refreshed_at: self.cim_refreshed_at,
        }
    }
}

impl JobView {
    /// The record was first fetched no later than it was last refreshed.
    pub open spec fn stamps_ordered(self) -> bool {
        self.cim_fetched_at.spec_at_most(self.cim_refreshed_at)
    }
}

/// Why a [`Job`] could not be built.
#[derive(Debug)]
pub enum JobBuilderError {
    /// A required field was never set.
    UninitializedField(&'static str),
    /// The fields that were set do not make a valid value.
    ValidationError(String),
}

/// Collects the fields of a [`Job`].
#[derive(Debug)]
pub struct JobBuilder {
    pub name: Option<String>,
    pub stage: Option<String>,
    pub allow_failure: Option<bool>,
    pub user: Option<VecIndex<User>>,
    pub tags: Option<Vec<String>>,
    pub variables: Option<PipelineVariables>,
    pub state: Option<JobState>,
    pub created_at: Option<Timestamp>,
    pub started_at: Option<Option<Timestamp>>,
    pub finished_at: Option<Option<Timestamp>>,
    pub erased_at: Option<Option<Timestamp>>,
    pub queued_duration: Option<Option<Binary64>>,
    pub runner: Option<Option<VecIndex<Runner>>>,
    pub deployment: Option<Option<VecIndex<Deployment>>>,
    pub forge_id: Option<u64>,
    pub archived: Option<bool>,
    pub url: Option<String>,
    pub pipeline: Option<VecIndex<Pipeline>>,
    pub coverage: Option<Option<Binary64>>,
}

impl Job {
    /// Create a builder for the structure.
    pub fn builder() -> (r: JobBuilder)
        ensures
            r == JobBuilder::empty(),
    {
        JobBuilder {
            name: None,
            stage: None,
            allow_failure: None,
            user: None,
            tags: None,
            variables: None,
            state: None,
            created_at: None,
            started_at: None,
            finished_at: None,
            erased_at: None,
            queued_duration: None,
            runner: None,
            deployment: None,
            forge_id: None,
            archived: None,
            url: None,
            pipeline: None,
            coverage: None,
        }
    }
}

impl JobBuilder {
    /// The builder with no field set.
    pub open spec fn empty() -> JobBuilder {
        JobBuilder {
            name: None,
            stage: None,
            allow_failure: None,
            user: None,
            tags: None,
            variables: None,
            state: None,
            created_at: None,
            started_at: None,
            finished_at: None,
            erased_at: None,
            queued_duration: None,
            runner: None,
            deployment: None,
            forge_id: None,
            archived: None,
            url: None,
            pipeline: None,
            coverage: None,
        }
    }

    /// The first required field, in declaration order, that is not set.
    pub open spec fn missing(self) -> Option<Seq<char>> {
        if self.user is None {
            Some("user"@)
        } else if self.state is None {
            Some("state"@)
        } else if self.created_at is None {
            Some("created_at"@)
        } else if self.forge_id is None {
            Some("forge_id"@)
        } else if self.pipeline is None {
            Some("pipeline"@)
        } else {
            None
        }
    }

    /// What the builder makes at the instant `now`, once every required field
    /// is set.
    pub open spec fn record(self, now: Timestamp) -> JobView {
        JobView {
            name: match self.name {
                Some(v) => v@,
                None => Seq::empty(),
            },
            stage: match self.stage {
                Some(v) => v@,
                None => Seq::empty(),
            },
            allow_failure: match self.allow_failure {
                Some(v) => v,
                None => false,
            },
            user: self.user.unwrap(),
            tags: match self.tags {
                Some(v) => texts(v@),
                None => Seq::empty(),
            },
            variables: match self.variables {
                Some(v) => v@,
                None => PipelineVariablesView::empty(),
            },
            state: self.state.unwrap(),
            created_at: self.created_at.unwrap(),
            started_at: match self.started_at {
                Some(v) => v,
                None => None,
            },
            finished_at: match self.finished_at {
                Some(v) => v,
                None => None,
            },
            erased_at: match self.erased_at {
                Some(v) => v,
                None => None,
            },
            queued_duration: match self.queued_duration {
                Some(v) => v,
                None => None,
            },
            runner: match self.runner {
                Some(v) => v,
                None => None,
            },
            deployment: match self.deployment {
                Some(v) => v,
                None => None,
            },
            forge_id: self.forge_id.unwrap(),
            archived: match self.archived {
                Some(v) => v,
                None => false,
            },
            url: match self.url {
                Some(v) => v@,
                None => Seq::empty(),
            },
            pipeline: self.pipeline.unwrap(),
            coverage: match self.coverage {
                Some(v) => v,
                None => None,
            },
            cim_fetched_at: now,
            cim_refreshed_at: now,
        }
    }

    /// The name of the job.
    pub fn name(self, value: &str) -> (r: Self)
        ensures
            r.name is Some,
            r.name.unwrap()@ == value@,
            r == (JobBuilder { name: r.name, ..self }),
    {
        JobBuilder { name: Some(value.to_owned()), ..self }
    }

    /// The stage of the job within its pipeline.
    pub fn stage(self, value: &str) -> (r: Self)
        ensures
            r.stage is Some,
            r.stage.unwrap()@ == value@,
            r == (JobBuilder { stage: r.stage, ..self }),
    {
        JobBuilder { stage: Some(value.to_owned()), ..self }
    }

    /// Whether the job is allowed to fail or not.
    pub fn allow_failure(self, value: bool) -> (r: Self)
        ensures
            r == (JobBuilder { allow_failure: Some(value), ..self }),
    {
        JobBuilder { allow_failure: Some(value), ..self }
    }

    /// The user that created the job.
    pub fn user(self, value: VecIndex<User>) -> (r: Self)
        ensures
            r == (JobBuilder { user: Some(value), ..self }),
    {
        JobBuilder { user: Some(value), ..self }
    }

    /// The tags of the job.
    pub fn tags(self, value: Vec<String>) -> (r: Self)
        ensures
            r == (JobBuilder { tags: Some(value), ..self }),
    {
        JobBuilder { tags: Some(value), ..self }
    }

    /// Variables for the job.
    pub fn variables(self, value: PipelineVariables) -> (r: Self)
        ensures
            r == (JobBuilder { variables: Some(value), ..self }),
    {
        JobBuilder { variables: Some(value), ..self }
    }

    /// The state of the job.
    pub fn state(self, value: JobState) -> (r: Self)
        ensures
            r == (JobBuilder { state: Some(value), ..self }),
    {
        JobBuilder { state: Some(value), ..self }
    }

    /// When the job was created.
    pub fn created_at(self, value: Timestamp) -> (r: Self)
        ensures
            r == (JobBuilder { created_at: Some(value), ..self }),
    {
        JobBuilder { created_at: Some(value), ..self }
    }

    /// When the job was started.
    pub fn started_at(self, value: Option<Timestamp>) -> (r: Self)
        ensures
            r == (JobBuilder { started_at: Some(value), ..self }),
    {
        JobBuilder { started_at: Some(value), ..self }
    }

    /// When the job finished.
    pub fn finished_at(self, value: Option<Timestamp>) -> (r: Self)
        ensures
            r == (JobBuilder { finished_at: Some(value), ..self }),
    {
        JobBuilder { finished_at: Some(value), ..self }
    }

    /// When the job was erased.
    pub fn erased_at(self, value: Option<Timestamp>) -> (r: Self)
        ensures
            r == (JobBuilder { erased_at: Some(value), ..self }),
    {
        JobBuilder { erased_at: Some(value), ..self }
    }

    /// How long the job was queued.
    pub fn queued_duration(self, value: Option<Binary64>) -> (r: Self)
        ensures
            r == (JobBuilder { queued_duration: Some(value), ..self }),
    {
        JobBuilder { queued_duration: Some(value), ..self }
    }

    /// The runner for the job.
    pub fn runner(self, value: Option<VecIndex<Runner>>) -> (r: Self)
        ensures
            r == (JobBuilder { runner: Some(value), ..self }),
    {
        JobBuilder { runner: Some(value), ..self }
    }

    /// The deployment the job publishes to.
    pub fn deployment(self, value: Option<VecIndex<Deployment>>) -> (r: Self)
        ensures
            r == (JobBuilder { deployment: Some(value), ..self }),
    {
        JobBuilder { deployment: Some(value), ..self }
    }

    /// The ID of the job.
    pub fn forge_id(self, value: u64) -> (r: Self)
        ensures
            r == (JobBuilder { forge_id: Some(value), ..self }),
    {
        JobBuilder { forge_id: Some(value), ..self }
    }

    /// Whether the job is archived or not.
    pub fn archived(self, value: bool) -> (r: Self)
        ensures
            r == (JobBuilder { archived: Some(value), ..self }),
    {
        JobBuilder { archived: Some(value), ..self }
    }

    /// The URL of the job.
    pub fn url(self, value: &str) -> (r: Self)
        ensures
            r.url is Some,
            r.url.unwrap()@ == value@,
            r == (JobBuilder { url: r.url, ..self }),
    {
        JobBuilder { url: Some(value.to_owned()), ..self }
    }

    /// The pipeline the job belongs to.
    pub fn pipeline(self, value: VecIndex<Pipeline>) -> (r: Self)
        ensures
            r == (JobBuilder { pipeline: Some(value), ..self }),
    {
        JobBuilder { pipeline: Some(value), ..self }
    }

    /// The coverage reported by the job.
    pub fn coverage(self, value: Option<Binary64>) -> (r: Self)
        ensures
            r == (JobBuilder { coverage: Some(value), ..self }),
    {
        JobBuilder { coverage: Some(value), ..self }
    }

    /// Build the job as first seen at `now`, or name the first required field
    /// that is missing.
    pub fn build_at(self, now: Timestamp) -> (r: Result<Job, JobBuilderError>)
        ensures
            match r {
                Ok(v) => self.missing() is None && v@ == self.record(now),
                Err(e) => e matches JobBuilderError::UninitializedField(f)
                    && self.missing() == Some(f@),
            },
    {
        let user = match self.user {
            Some(v) => v,
            None => return Err(JobBuilderError::UninitializedField("user")),
        };
        let state = match self.state {
            Some(v) => v,
            None => return Err(JobBuilderError::UninitializedField("state")),
        };
        let created_at = match self.created_at {
            Some(v) => v,
            None => return Err(JobBuilderError::UninitializedField("created_at")),
        };
        let forge_id = match self.forge_id {
            Some(v) => v,
            None => return Err(JobBuilderError::UninitializedField("forge_id")),
        };
        let pipeline = match self.pipeline {
            Some(v) => v,
            None => return Err(JobBuilderError::UninitializedField("pipeline")),
        };
        let name = match self.name {
            Some(v) => v,
            None => String::new(),
        };
        let stage = match self.stage {
            Some(v) => v,
            None => String::new(),
        };
        let allow_failure = match self.allow_failure {
            Some(v) => v,
            None => false,
        };
        let tags = match self.tags {
            Some(v) => v,
            None => Vec::new(),
        };
        let variables = match self.variables {
            Some(v) => v,
            None => PipelineVariables::new(),
        };
        let started_at = match self.started_at {
            Some(v) => v,
            None => None,
        };
        let finished_at = match self.finished_at {
            Some(v) => v,
            None => None,
        };
        let erased_at = match self.erased_at {
            Some(v) => v,
            None => None,
        };
        let queued_duration = match self.queued_duration {
            Some(v) => v,
            None => None,
        };
        let runner = match self.runner {
            Some(v) => v,
            None => None,
        };
        let deployment = match self.deployment {
            Some(v) => v,
            None => None,
        };
        let archived = match self.archived {
            Some(v) => v,
            None => false,
        };
        let url = match self.url {
            Some(v) => v,
            None => String::new(),
        };
        let coverage = match self.coverage {
            Some(v) => v,
            None => None,
        };
        proof {
            lemma_texts_empty();
        }
        Ok(Job {
            name,
            stage,
            allow_failure,
            user,
            tags,
            variables,
            state,
            created_at,
            started_at,
            finished_at,
            erased_at,
            queued_duration,
            runner,
            deployment,
            forge_id,
            archived,
            url,
            pipeline,
            coverage,
            cim_fetched_at: now,
            cim_refreshed_at: now,
        })
    }

    /// Build the job as first seen now, or name the first required field that
    /// is missing.
    pub fn build(self) -> (r: Result<Job, JobBuilderError>)
        ensures
            match r {
                Ok(v) => self.missing() is None && v@ == self.record(v.cim_fetched_at),
                Err(e) => e matches JobBuilderError::UninitializedField(f)
                    && self.missing() == Some(f@),
            },
    {
        self.build_at(Timestamp::now())
    }
}

} // verus!
