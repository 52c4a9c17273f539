//! Pipelines.

use vstd::prelude::*;
use crate::data::merge_request::MergeRequest;
use crate::data::number::Binary64;
use crate::data::pipeline_schedule::PipelineSchedule;
use crate::data::pipeline_variables::{PipelineVariables, PipelineVariablesView};
use crate::data::project::Project;
use crate::data::user::User;
use crate::objects::vec::VecIndex;
use crate::text::{clone_opt_string, opt_text, str_eq};
use crate::time::Timestamp;

verus! {

/// The source of a pipeline.
#[derive(Debug, Clone, Copy, PartialEq, Eq, Structural)]
pub enum PipelineSource {
    /// Created via the API.
    Api,
    /// Created via a chatbot.
    Chat,
    /// Created via an external event.
    External,
    /// Created via an external pull request event.
    ExternalPullRequestEvent,
    /// Created due to a merge request event.
    MergeRequestEvent,
    /// Created to perform a DAST scan.
    OnDemandDastScan,
    /// Created to perform a DAST validation.
    OnDemandDastValidation,
    /// Created as a child of another pipeline.
    ParentPipeline,
    /// Created through the action of another pipeline.
    Pipeline,
    /// Created due to a push to a ref.
    Push,
    /// Created due to a schedule.
    Schedule,
    /// Created for a security orchestration.
    SecurityOrchestrationPolicy,
    /// Created via a trigger token.
    Trigger,
    /// Created via the web interface.
    Web,
    /// Created via the web IDE.
    WebIde,
}

impl PipelineSource {
    /// The canonical name of the value.
    pub open spec fn spec_name(self) -> Seq<char> {
        match self {
            PipelineSource::Api => "api"@,
            PipelineSource::Chat => "chat"@,
            PipelineSource::External => "external"@,
            PipelineSource::ExternalPullRequestEvent => "external_pull_request_event"@,
            PipelineSource::MergeRequestEvent => "merge_request_event"@,
            PipelineSource::OnDemandDastScan => "on_demand_dast_scan"@,
            PipelineSource::OnDemandDastValidation => "on_demand_dast_validation"@,
            PipelineSource::ParentPipeline => "parent_pipeline"@,
            PipelineSource::Pipeline => "pipeline"@,
            PipelineSource::Push => "push"@,
            PipelineSource::Schedule => "schedule"@,
            PipelineSource::SecurityOrchestrationPolicy => "security_orchestration_policy"@,
            PipelineSource::Trigger => "trigger"@,
            PipelineSource::Web => "web"@,
            PipelineSource::WebIde => "web_ide"@,
        }
    }

    /// The value with a given canonical name, if there is one.
    pub open spec fn spec_from_name(name: Seq<char>) -> Option<PipelineSource> {
        if name == "api"@ {
            Some(PipelineSource::Api)
        } else if name == "chat"@ {
            Some(PipelineSource::Chat)
        } else if name == "external"@ {
            Some(PipelineSource::External)
        } else if name == "external_pull_request_event"@ {
            Some(PipelineSource::ExternalPullRequestEvent)
        } else if name == "merge_request_event"@ {
            Some(PipelineSource::MergeRequestEvent)
        } else if name == "on_demand_dast_scan"@ {
            Some(PipelineSource::OnDemandDastScan)
        } else if name == "on_demand_dast_validation"@ {
            Some(PipelineSource::OnDemandDastValidation)
        } else if name == "parent_pipeline"@ {
            Some(PipelineSource::ParentPipeline)
        } else if name == "pipeline"@ {
            Some(PipelineSource::Pipeline)
        } else if name == "push"@ {
            Some(PipelineSource::Push)
        } else if name == "schedule"@ {
            Some(PipelineSource::Schedule)
        } else if name == "security_orchestration_policy"@ {
            Some(PipelineSource::SecurityOrchestrationPolicy)
        } else if name == "trigger"@ {
            Some(PipelineSource::Trigger)
        } else if name == "web"@ {
            Some(PipelineSource::Web)
        } else if name == "web_ide"@ {
            Some(PipelineSource::WebIde)
        } else {
            None
        }
    }

    /// The canonical name of the value.
    pub fn name(self) -> (r: &'static str)
        ensures
            r@ == self.spec_name(),
    {
        match self {
            PipelineSource::Api => "api",
            PipelineSource::Chat => "chat",
            PipelineSource::External => "external",
            PipelineSource::ExternalPullRequestEvent => "external_pull_request_event",
            PipelineSource::MergeRequestEvent => "merge_request_event",
            PipelineSource::OnDemandDastScan => "on_demand_dast_scan",
            PipelineSource::OnDemandDastValidation => "on_demand_dast_validation",
            PipelineSource::ParentPipeline => "parent_pipeline",
            PipelineSource::Pipeline => "pipeline",
            PipelineSource::Push => "push",
            PipelineSource::Schedule => "schedule",
            PipelineSource::SecurityOrchestrationPolicy => "security_orchestration_policy",
            PipelineSource::Trigger => "trigger",
            PipelineSource::Web => "web",
            PipelineSource::WebIde => "web_ide",
        }
    }

    /// The value named by `name`.
    pub fn from_name(name: &str) -> (r: Option<PipelineSource>)
        ensures
            r == Self::spec_from_name(name@),
    {
        if str_eq(name, "api") {
            Some(PipelineSource::Api)
        } else if str_eq(name, "chat") {
            Some(PipelineSource::Chat)
        } else if str_eq(name, "external") {
            Some(PipelineSource::External)
        } else if str_eq(name, "external_pull_request_event") {
            Some(PipelineSource::ExternalPullRequestEvent)
        } else if str_eq(name, "merge_request_event") {
            Some(PipelineSource::MergeRequestEvent)
        } else if str_eq(name, "on_demand_dast_scan") {
            Some(PipelineSource::OnDemandDastScan)
        } else if str_eq(name, "on_demand_dast_validation") {
            Some(PipelineSource::OnDemandDastValidation)
        } else if str_eq(name, "parent_pipeline") {
            Some(PipelineSource::ParentPipeline)
        } else if str_eq(name, "pipeline") {
            Some(PipelineSource::Pipeline)
        } else if str_eq(name, "push") {
            Some(PipelineSource::Push)
        } else if str_eq(name, "schedule") {
            Some(PipelineSource::Schedule)
        } else if str_eq(name, "security_orchestration_policy") {
            Some(PipelineSource::SecurityOrchestrationPolicy)
        } else if str_eq(name, "trigger") {
            Some(PipelineSource::Trigger)
        } else if str_eq(name, "web") {
            Some(PipelineSource::Web)
        } else if str_eq(name, "web_ide") {
            Some(PipelineSource::WebIde)
        } else {
            None
        }
    }
}

/// Every value is found again by its canonical name.
pub proof fn lemma_pipeline_source_name_round_trip(value: PipelineSource)
    ensures
        PipelineSource::spec_from_name(value.spec_name()) == Some(value),
{
    reveal_strlit("api");
    reveal_strlit("chat");
    reveal_strlit("external");
    reveal_strlit("external_pull_request_event");
    reveal_strlit("merge_request_event");
    reveal_strlit("on_demand_dast_scan");
    reveal_strlit("on_demand_dast_validation");
    reveal_strlit("parent_pipeline");
    reveal_strlit("pipeline");
    reveal_strlit("push");
    reveal_strlit("schedule");
    reveal_strlit("security_orchestration_policy");
    reveal_strlit("trigger");
    reveal_strlit("web");
    reveal_strlit("web_ide");
    assert("api"@.len() == 3);
    assert("chat"@.len() == 4);
    assert("external"@.len() == 8);
    assert("external_pull_request_event"@.len() == 27);
    assert("merge_request_event"@.len() == 19);
    assert("on_demand_dast_scan"@.len() == 19);
    assert("on_demand_dast_validation"@.len() == 25);
    assert("parent_pipeline"@.len() == 15);
    assert("pipeline"@.len() == 8);
    assert("push"@.len() == 4);
    assert("schedule"@.len() == 8);
    assert("security_orchestration_policy"@.len() == 29);
    assert("trigger"@.len() == 7);
    assert("web"@.len() == 3);
    assert("web_ide"@.len() == 7);
    assert("merge_request_event"@[0] != "on_demand_dast_scan"@[0]);
    assert("external"@[0] != "pipeline"@[0]);
    assert("chat"@[0] != "push"@[0]);
    assert("external"@[0] != "schedule"@[0]);
    assert("pipeline"@[0] != "schedule"@[0]);
    assert("api"@[0] != "web"@[0]);
    assert("trigger"@[0] != "web_ide"@[0]);
}

/// The overall status of a pipeline.
#[derive(Debug, Clone, Copy, PartialEq, Eq, Structural)]
pub enum PipelineStatus {
    /// The pipeline has been created.
    Created,
    /// The pipeline is waiting for a resource to be available.
    WaitingForResource,
    /// The jobs in the pipeline are being constructed.
    Preparing,
    /// The pipeline is waiting for jobs to be executed.
    Pending,
    /// The pipeline is running.
    Running,
    /// The pipeline has completed successfully.
    Success,
    /// The pipeline has failed.
    Failed,
    /// The pipeline has been canceled.
    Canceled,
    /// The pipeline has been skipped.
    Skipped,
    /// The pipeline is waiting for manual interaction.
    Manual,
    /// The pipeline is scheduled.
    Scheduled,
    /// The pipeline has completed.
    Completed,
    /// The pipeline has completed without success or failure.
    Neutral,
    /// The pipeline is stale.
    Stale,
    /// The pipeline failed to start.
    StartupFailure,
    /// The pipeline has timed out.
    TimedOut,
}

impl PipelineStatus {
    /// The canonical name of the value.
    pub open spec fn spec_name(self) -> Seq<char> {
        match self {
            PipelineStatus::Created => "created"@,
            PipelineStatus::WaitingForResource => "waiting_for_resource"@,
            PipelineStatus::Preparing => "preparing"@,
            PipelineStatus::Pending => "pending"@,
            PipelineStatus::Running => "running"@,
            PipelineStatus::Success => "success"@,
            PipelineStatus::Failed => "failed"@,
            PipelineStatus::Canceled => "canceled"@,
            PipelineStatus::Skipped => "skipped"@,
            PipelineStatus::Manual => "manual"@,
            PipelineStatus::Scheduled => "scheduled"@,
            PipelineStatus::Completed => "completed"@,
            PipelineStatus::Neutral => "neutral"@,
            PipelineStatus::Stale => "stale"@,
            PipelineStatus::StartupFailure => "startup_failure"@,
            PipelineStatus::TimedOut => "timed_out"@,
        }
    }

    /// The value with a given canonical name, if there is one.
    pub open spec fn spec_from_name(name: Seq<char>) -> Option<PipelineStatus> {
        if name == "created"@ {
            Some(PipelineStatus::Created)
        } else if name == "waiting_for_resource"@ {
            Some(PipelineStatus::WaitingForResource)
        } else if name == "preparing"@ {
            Some(PipelineStatus::Preparing)
        } else if name == "pending"@ {
            Some(PipelineStatus::Pending)
        } else if name == "running"@ {
            Some(PipelineStatus::Running)
        } else if name == "success"@ {
            Some(PipelineStatus::Success)
        } else if name == "failed"@ {
            Some(PipelineStatus::Failed)
        } else if name == "canceled"@ {
            Some(PipelineStatus::Canceled)
        } else if name == "skipped"@ {
            Some(PipelineStatus::Skipped)
        } else if name == "manual"@ {
            Some(PipelineStatus::Manual)
        } else if name == "scheduled"@ {
            Some(PipelineStatus::Scheduled)
        } else if name == "completed"@ {
            Some(PipelineStatus::Completed)
        } else if name == "neutral"@ {
            Some(PipelineStatus::Neutral)
        } else if name == "stale"@ {
            Some(PipelineStatus::Stale)
        } else if name == "startup_failure"@ {
            Some(PipelineStatus::StartupFailure)
        } else if name == "timed_out"@ {
            Some(PipelineStatus::TimedOut)
        } else {
            None
        }
    }

    /// The canonical name of the value.
    pub fn name(self) -> (r: &'static str)
        ensures
            r@ == self.spec_name(),
    {
        match self {
            PipelineStatus::Created => "created",
            PipelineStatus::WaitingForResource => "waiting_for_resource",
            PipelineStatus::Preparing => "preparing",
            PipelineStatus::Pending => "pending",
            PipelineStatus::Running => "running",
            PipelineStatus::Success => "success",
            PipelineStatus::Failed => "failed",
            PipelineStatus::Canceled => "canceled",
            PipelineStatus::Skipped => "skipped",
            PipelineStatus::Manual => "manual",
            PipelineStatus::Scheduled => "scheduled",
            PipelineStatus::Completed => "completed",
            PipelineStatus::Neutral => "neutral",
            PipelineStatus::Stale => "stale",
            PipelineStatus::StartupFailure => "startup_failure",
            PipelineStatus::TimedOut => "timed_out",
        }
    }

    /// The value named by `name`.
    pub fn from_name(name: &str) -> (r: Option<PipelineStatus>)
        ensures
            r == Self::spec_from_name(name@),
    {
        if str_eq(name, "created") {
            Some(PipelineStatus::Created)
        } else if str_eq(name, "waiting_for_resource") {
            Some(PipelineStatus::WaitingForResource)
        } else if str_eq(name, "preparing") {
            Some(PipelineStatus::Preparing)
        } else if str_eq(name, "pending") {
            Some(PipelineStatus::Pending)
        } else if str_eq(name, "running") {
            Some(PipelineStatus::Running)
        } else if str_eq(name, "success") {
            Some(PipelineStatus::Success)
        } else if str_eq(name, "failed") {
            Some(PipelineStatus::Failed)
        } else if str_eq(name, "canceled") {
            Some(PipelineStatus::Canceled)
        } else if str_eq(name, "skipped") {
            Some(PipelineStatus::Skipped)
        } else if str_eq(name, "manual") {
            Some(PipelineStatus::Manual)
        } else if str_eq(name, "scheduled") {
            Some(PipelineStatus::Scheduled)
        } else if str_eq(name, "completed") {
            Some(PipelineStatus::Completed)
        } else if str_eq(name, "neutral") {
            Some(PipelineStatus::Neutral)
        } else if str_eq(name, "stale") {
            Some(PipelineStatus::Stale)
        } else if str_eq(name, "startup_failure") {
            Some(PipelineStatus::StartupFailure)
        } else if str_eq(name, "timed_out") {
            Some(PipelineStatus::TimedOut)
        } else {
            None
        }
    }
}

/// Every value is found again by its canonical name.
pub proof fn lemma_pipeline_status_name_round_trip(value: PipelineStatus)
    ensures
        PipelineStatus::spec_from_name(value.spec_name()) == Some(value),
{
    reveal_strlit("created");
    reveal_strlit("waiting_for_resource");
    reveal_strlit("preparing");
    reveal_strlit("pending");
    reveal_strlit("running");
    reveal_strlit("success");
    reveal_strlit("failed");
    reveal_strlit("canceled");
    reveal_strlit("skipped");
    reveal_strlit("manual");
    reveal_strlit("scheduled");
    reveal_strlit("completed");
    reveal_strlit("neutral");
    reveal_strlit("stale");
    reveal_strlit("startup_failure");
    reveal_strlit("timed_out");
    assert("created"@.len() == 7);
    assert("waiting_for_resource"@.len() == 20);
    assert("preparing"@.len() == 9);
    assert("pending"@.len() == 7);
    assert("running"@.len() == 7);
    assert("success"@.len() == 7);
    assert("failed"@.len() == 6);
    assert("canceled"@.len() == 8);
    assert("skipped"@.len() == 7);
    assert("manual"@.len() == 6);
    assert("scheduled"@.len() == 9);
    assert("completed"@.len() == 9);
    assert("neutral"@.len() == 7);
    assert("stale"@.len() == 5);
    assert("startup_failure"@.len() == 15);
    assert("timed_out"@.len() == 9);
    assert("created"@[0] != "pending"@[0]);
    assert("created"@[0] != "running"@[0]);
    assert("pending"@[0] != "running"@[0]);
    assert("created"@[0] != "success"@[0]);
    assert("pending"@[0] != "success"@[0]);
    assert("running"@[0] != "success"@[0]);
    assert("created"@[0] != "skipped"@[0]);
    assert("pending"@[0] != "skipped"@[0]);
    assert("running"@[0] != "skipped"@[0]);
    assert("success"@[1] != "skipped"@[1]);
    assert("failed"@[0] != "manual"@[0]);
    assert("preparing"@[0] != "scheduled"@[0]);
    assert("preparing"@[0] != "completed"@[0]);
    assert("scheduled"@[0] != "completed"@[0]);
    assert("created"@[0] != "neutral"@[0]);
    assert("pending"@[0] != "neutral"@[0]);
    assert("running"@[0] != "neutral"@[0]);
    assert("success"@[0] != "neutral"@[0]);
    assert("skipped"@[0] != "neutral"@[0]);
    assert("preparing"@[0] != "timed_out"@[0]);
    assert("scheduled"@[0] != "timed_out"@[0]);
    assert("completed"@[0] != "timed_out"@[0]);
}

/// A pipeline which performs CI tasks for a project.
#[derive(Debug)]
pub struct Pipeline {
    /// The name of the pipeline.
    pub name: Option<String>,
    /// The project the pipeline is associated with.
    pub project: VecIndex<Project>,
    /// The commit the pipeline is building.
    pub sha: String,
    /// The previous commit the pipeline built.
    pub previous_sha: Option<String>,
    /// The refname the pipeline is building.
    pub refname: Option<String>,
    /// The stable refname for the pipeline.
    pub stable_refname: Option<String>,
    /// The reason the pipeline was created.
    pub source: PipelineSource,
    /// The schedule which triggered the pipeline.
    pub schedule: Option<VecIndex<PipelineSchedule>>,
    /// The parent pipeline.
    pub parent_pipeline: Option<VecIndex<Pipeline>>,
    /// The merge request associated with a pipeline.
    pub merge_request: Option<VecIndex<MergeRequest>>,
    /// Variables for the pipeline.
    pub variables: PipelineVariables,
    /// The user that created the pipeline.
    pub user: Option<VecIndex<User>>,
    /// The status of the pipeline.
    pub status: PipelineStatus,
    /// The code coverage reported by the pipeline.
    pub coverage: Option<Binary64>,
    /// The ID of the pipeline.
    pub forge_id: u64,
    /// The URL of the pipeline webpage.
    pub url: String,
    /// Whether the pipeline is archived or not.
    ///
    /// Archived pipelines are essentially read-only.
    pub archived: bool,
    /// When the pipeline was created.
    pub created_at: Timestamp,
    /// When the pipeline was last updated.
    pub updated_at: Timestamp,
    /// When the pipeline started.
    pub started_at: Option<Timestamp>,
    /// When the pipeline completed.
    pub finished_at: Option<Timestamp>,
    /// When the monitoring tool first fetched information.
    pub cim_fetched_at: Timestamp,
    /// When the monitoring tool last updated this information.
    pub cim_refreshed_at: Timestamp,
}

/// What a [`Pipeline`] says.
pub struct PipelineView {
    pub name: Option<Seq<char>>,
    pub project: VecIndex<Project>,
    pub sha: Seq<char>,
    pub previous_sha: Option<Seq<char>>,
    pub refname: Option<Seq<char>>,
    pub stable_refname: Option<Seq<char>>,
    pub source: PipelineSource,
    pub schedule: Option<VecIndex<PipelineSchedule>>,
    pub parent_pipeline: Option<VecIndex<Pipeline>>,
    pub merge_request: Option<VecIndex<MergeRequest>>,
    pub variables: PipelineVariablesView,
    pub user: Option<VecIndex<User>>,
    pub status: PipelineStatus,
    pub coverage: Option<Binary64>,
    pub forge_id: u64,
    pub url: Seq<char>,
    pub archived: bool,
    pub created_at: Timestamp,
    pub updated_at: Timestamp,
    pub started_at: Option<Timestamp>,
    pub finished_at: Option<Timestamp>,
    pub cim_fetched_at: Timestamp,
    pub cim_refreshed_at: Timestamp,
}

impl View for Pipeline {
    type V = PipelineView;

    open spec fn view(&self) -> PipelineView {
        PipelineView {
            name: opt_text(self.name),
            project: self.project,
            sha: self.sha@,
            previous_sha: opt_text(self.previous_sha),
            refname: opt_text(self.refname),
            stable_refname: opt_text(self.stable_refname),
            source: self.source,
            schedule: self.schedule,
            parent_pipeline: self.parent_pipeline,
            merge_request: self.merge_request,
            variables: self.variables@,
            user: self.user,
            status: self.status,
            coverage: self.coverage,
            forge_id: self.forge_id,
            url: self.url@,
            archived: self.archived,
            created_at: self.created_at,
            updated_at: self.updated_at,
            started_at: self.started_at,
            finished_at: self.finished_at,
            cim_fetched_at: self.cim_fetched_at,
            cim_refreshed_at: self.cim_refreshed_at,
        }
    }
}

impl Clone for Pipeline {
    fn clone(&self) -> (r: Self)
        ensures
            r@ == self@,
    {
        Pipeline {
            name: clone_opt_string(&self.name),
            project: self.project,
            sha: self.sha.clone(),
            previous_sha: clone_opt_string(&self.previous_sha),
            refname: clone_opt_string(&self.refname),
            stable_refname: clone_opt_string(&self.stable_refname),
            source: self.source,
            schedule: self.schedule,
            parent_pipeline: self.parent_pipeline,
            merge_request: self.merge_request,
            variables: self.variables.clone(),
            user: self.user,
            status: self.status,
            coverage: self.coverage,
            forge_id: self.forge_id,
            url: self.url.clone(),
            archived: self.archived,
            created_at: self.created_at,
            updated_at: self.updated_at,
            started_at: self.started_at,
            finished_at: self.finished_at,
            cim_fetched_at: self.cim_fetched_at,
            cim_refreshed_at: self.cim_refreshed_at,
        }
    }
}

impl PipelineView {
    /// The record was first fetched no later than it was last refreshed.
    pub open spec fn stamps_ordered(self) -> bool {
        self.cim_fetched_at.spec_at_most(self.cim_refreshed_at)
    }
}

/// Why a [`Pipeline`] could not be built.
#[derive(Debug)]
pub enum PipelineBuilderError {
    /// A required field was never set.
    UninitializedField(&'static str),
    /// The fields that were set do not make a valid value.
    ValidationError(String),
}

/// Collects the fields of a [`Pipeline`].
#[derive(Debug)]
pub struct PipelineBuilder {
    pub name: Option<Option<String>>,
    pub project: Option<VecIndex<Project>>,
    pub sha: Option<String>,
    pub previous_sha: Option<Option<String>>,
    pub refname: Option<Option<String>>,
    pub stable_refname: Option<Option<String>>,
    pub source: Option<PipelineSource>,
    pub schedule: Option<Option<VecIndex<PipelineSchedule>>>,
    pub parent_pipeline: Option<Option<VecIndex<Pipeline>>>,
    pub merge_request: Option<Option<VecIndex<MergeRequest>>>,
    pub variables: Option<PipelineVariables>,
    pub user: Option<Option<VecIndex<User>>>,
    pub status: Option<PipelineStatus>,
    pub coverage: Option<Option<Binary64>>,
    pub forge_id: Option<u64>,
    pub url: Option<String>,
    pub archived: Option<bool>,
    pub created_at: Option<Timestamp>,
    pub updated_at: Option<Timestamp>,
    pub started_at: Option<Option<Timestamp>>,
    pub finished_at: Option<Option<Timestamp>>,
}

impl Pipeline {
    /// Create a builder for the structure.
    pub fn builder() -> (r: PipelineBuilder)
        ensures
            r == PipelineBuilder::empty(),
    {
        PipelineBuilder {
            name: None,
            project: None,
            sha: None,
            previous_sha: None,
            refname: None,
            stable_refname: None,
            source: None,
            schedule: None,
            parent_pipeline: None,
            merge_request: None,
            variables: None,
            user: None,
            status: None,
            coverage: None,
            forge_id: None,
            url: None,
            archived: None,
            created_at: None,
            updated_at: None,
            started_at: None,
            finished_at: None,
        }
    }
}

impl PipelineBuilder {
    /// The builder with no field set.
    pub open spec fn empty() -> PipelineBuilder {
        PipelineBuilder {
            name: None,
            project: None,
            sha: None,
            previous_sha: None,
            refname: None,
            stable_refname: None,
            source: None,
            schedule: None,
            parent_pipeline: None,
            merge_request: None,
            variables: None,
            user: None,
            status: None,
            coverage: None,
            forge_id: None,
            url: None,
            archived: None,
            created_at: None,
            updated_at: None,
            started_at: None,
            finished_at: None,
        }
    }

    /// The first required field, in declaration order, that is not set.
    pub open spec fn missing(self) -> Option<Seq<char>> {
        if self.project is None {
            Some("project"@)
        } else if self.sha is None {
            Some("sha"@)
        } else if self.source is None {
            Some("source"@)
        } else if self.status is None {
            Some("status"@)
        } else if self.forge_id is None {
            Some("forge_id"@)
        } else if self.url is None {
            Some("url"@)
        } else if self.created_at is None {
            Some("created_at"@)
        } else if self.updated_at is None {
            Some("updated_at"@)
        } else {
            None
        }
    }

    /// What the builder makes at the instant `now`, once every required field
    /// is set.
    pub open spec fn record(self, now: Timestamp) -> PipelineView {
        PipelineView {
            name: match self.name {
                Some(v) => opt_text(v),
                None => None,
            },
            project: self.project.unwrap(),
            sha: self.sha.unwrap()@,
            previous_sha: match self.previous_sha {
                Some(v) => opt_text(v),
                None => None,
            },
            refname: match self.refname {
                Some(v) => opt_text(v),
                None => None,
            },
            stable_refname: match self.stable_refname {
                Some(v) => opt_text(v),
                None => None,
            },
            source: self.source.unwrap(),
            schedule: match self.schedule {
                Some(v) => v,
                None => None,
            },
            parent_pipeline: match self.parent_pipeline {
                Some(v) => v,
                None => None,
            },
            merge_request: match self.merge_request {
                Some(v) => v,
                None => None,
            },
            variables: match self.variables {
                Some(v) => v@,
                None => PipelineVariablesView::empty(),
            },
            user: match self.user {
                Some(v) => v,
                None => None,
            },
            status: self.status.unwrap(),
            coverage: match self.coverage {
                Some(v) => v,
                None => None,
            },
            forge_id: self.forge_id.unwrap(),
            url: self.url.unwrap()@,
            archived: match self.archived {
                Some(v) => v,
                None => false,
            },
            created_at: self.created_at.unwrap(),
            updated_at: self.updated_at.unwrap(),
            started_at: match self.started_at {
                Some(v) => v,
                None => None,
            },
            finished_at: match self.finished_at {
                Some(v) => v,
                None => None,
            },
            cim_fetched_at: now,
            cim_refreshed_at: now,
        }
    }

    /// The name of the pipeline.
    pub fn name(self, value: Option<String>) -> (r: Self)
        ensures
            r == (PipelineBuilder { name: Some(value), ..self }),
    {
        PipelineBuilder { name: Some(value), ..self }
    }

    /// The project the pipeline is associated with.
    pub fn project(self, value: VecIndex<Project>) -> (r: Self)
        ensures
            r == (PipelineBuilder { project: Some(value), ..self }),
    {
        PipelineBuilder { project: Some(value), ..self }
    }

    /// The commit the pipeline is building.
    pub fn sha(self, value: &str) -> (r: Self)
        ensures
            r.sha is Some,
            r.sha.unwrap()@ == value@,
            r == (PipelineBuilder { sha: r.sha, ..self }),
    {
        PipelineBuilder { sha: Some(value.to_owned()), ..self }
    }

    /// The previous commit the pipeline built.
    pub fn previous_sha(self, value: Option<String>) -> (r: Self)
        ensures
            r == (PipelineBuilder { previous_sha: Some(value), ..self }),
    {
        PipelineBuilder { previous_sha: Some(value), ..self }
    }

    /// The refname the pipeline is building.
    pub fn refname(self, value: Option<String>) -> (r: Self)
        ensures
            r == (PipelineBuilder { refname: Some(value), ..self }),
    {
        PipelineBuilder { refname: Some(value), ..self }
    }

    /// The stable refname for the pipeline.
    pub fn stable_refname(self, value: Option<String>) -> (r: Self)
        ensures
            r == (PipelineBuilder { stable_refname: Some(value), ..self }),
    {
        PipelineBuilder { stable_refname: Some(value), ..self }
    }

    /// The reason the pipeline was created.
    pub fn source(self, value: PipelineSource) -> (r: Self)
        ensures
            r == (PipelineBuilder { source: Some(value), ..self }),
    {
        PipelineBuilder { source: Some(value), ..self }
    }

    /// The schedule which triggered the pipeline.
    pub fn schedule(self, value: Option<VecIndex<PipelineSchedule>>) -> (r: Self)
        ensures
            r == (PipelineBuilder { schedule: Some(value), ..self }),
    {
        PipelineBuilder { schedule: Some(value), ..self }
    }

    /// The parent pipeline.
    pub fn parent_pipeline(self, value: Option<VecIndex<Pipeline>>) -> (r: Self)
        ensures
            r == (PipelineBuilder { parent_pipeline: Some(value), ..self }),
    {
        PipelineBuilder { parent_pipeline: Some(value), ..self }
    }

    /// The merge request associated with a pipeline.
    pub fn merge_request(self, value: Option<VecIndex<MergeRequest>>) -> (r: Self)
        ensures
            r == (PipelineBuilder { merge_request: Some(value), ..self }),
    {
        PipelineBuilder { merge_request: Some(value), ..self }
    }

    /// Variables for the pipeline.
    pub fn variables(self, value: PipelineVariables) -> (r: Self)
        ensures
            r == (PipelineBuilder { variables: Some(value), ..self }),
    {
        PipelineBuilder { variables: Some(value), ..self }
    }

    /// The user that created the pipeline.
    pub fn user(self, value: Option<VecIndex<User>>) -> (r: Self)
        ensures
            r == (PipelineBuilder { user: Some(value), ..self }),
    {
        PipelineBuilder { user: Some(value), ..self }
    }

    /// The status of the pipeline.
    pub fn status(self, value: PipelineStatus) -> (r: Self)
        ensures
            r == (PipelineBuilder { status: Some(value), ..self }),
    {
        PipelineBuilder { status: Some(value), ..self }
    }

    /// The code coverage reported by the pipeline.
    pub fn coverage(self, value: Option<Binary64>) -> (r: Self)
        ensures
            r == (PipelineBuilder { coverage: Some(value), ..self }),
    {
        PipelineBuilder { coverage: Some(value), ..self }
    }

    /// The ID of the pipeline.
    pub fn forge_id(self, value: u64) -> (r: Self)
        ensures
            r == (PipelineBuilder { forge_id: Some(value), ..self }),
    {
        PipelineBuilder { forge_id: Some(value), ..self }
    }

    /// The URL of the pipeline webpage.
    pub fn url(self, value: &str) -> (r: Self)
        ensures
            r.url is Some,
            r.url.unwrap()@ == value@,
            r == (PipelineBuilder { url: r.url, ..self }),
    {
        PipelineBuilder { url: Some(value.to_owned()), ..self }
    }

    /// Whether the pipeline is archived or not.
    ///
    /// Archived pipelines are essentially read-only.
    pub fn archived(self, value: bool) -> (r: Self)
        ensures
            r == (PipelineBuilder { archived: Some(value), ..self }),
    {
        PipelineBuilder { archived: Some(value), ..self }
    }

    /// When the pipeline was created.
    pub fn created_at(self, value: Timestamp) -> (r: Self)
        ensures
            r == (PipelineBuilder { created_at: Some(value), ..self }),
    {
        PipelineBuilder { created_at: Some(value), ..self }
    }

    /// When the pipeline was last updated.
    pub fn updated_at(self, value: Timestamp) -> (r: Self)
        ensures
            r == (PipelineBuilder { updated_at: Some(value), ..self }),
    {
        PipelineBuilder { updated_at: Some(value), ..self }
    }

    /// When the pipeline started.
    pub fn started_at(self, value: Option<Timestamp>) -> (r: Self)
        ensures
            r == (PipelineBuilder { started_at: Some(value), ..self }),
    {
        PipelineBuilder { started_at: Some(value), ..self }
    }

    /// When the pipeline completed.
    pub fn finished_at(self, value: Option<Timestamp>) -> (r: Self)
        ensures
            r == (PipelineBuilder { finished_at: Some(value), ..self }),
    {
        PipelineBuilder { finished_at: Some(value), ..self }
    }

    /// Build the pipeline as first seen at `now`, or name the first required field
    /// that is missing.
    pub fn build_at(self, now: Timestamp) -> (r: Result<Pipeline, PipelineBuilderError>)
        ensures
            match r {
                Ok(v) => self.missing() is None && v@ == self.record(now),
                Err(e) => e matches PipelineBuilderError::UninitializedField(f)
                    && self.missing() == Some(f@),
            },
    {
        let project = match self.project {
            Some(v) => v,
            None => return Err(PipelineBuilderError::UninitializedField("project")),
        };
        let sha = match self.sha {
            Some(v) => v,
            None => return Err(PipelineBuilderError::UninitializedField("sha")),
        };
        let source = match self.source {
            Some(v) => v,
            None => return Err(PipelineBuilderError::UninitializedField("source")),
        };
        let status = match self.status {
            Some(v) => v,
            None => return Err(PipelineBuilderError::UninitializedField("status")),
        };
        let forge_id = match self.forge_id {
            Some(v) => v,
            None => return Err(PipelineBuilderError::UninitializedField("forge_id")),
        };
        let url = match self.url {
            Some(v) => v,
            None => return Err(PipelineBuilderError::UninitializedField("url")),
        };
        let created_at = match self.created_at {
            Some(v) => v,
            None => return Err(PipelineBuilderError::UninitializedField("created_at")),
        };
        let updated_at = match self.updated_at {
            Some(v) => v,
            None => return Err(PipelineBuilderError::UninitializedField("updated_at")),
        };
        let name = match self.name {
            Some(v) => v,
            None => None,
        };
        let previous_sha = match self.previous_sha {
            Some(v) => v,
            None => None,
        };
        let refname = match self.refname {
            Some(v) => v,
            None => None,
        };
        let stable_refname = match self.stable_refname {
            Some(v) => v,
            None => None,
        };
        let schedule = match self.schedule {
            Some(v) => v,
            None => None,
        };
        let parent_pipeline = match self.parent_pipeline {
            Some(v) => v,
            None => None,
        };
        let merge_request = match self.merge_request {
            Some(v) => v,
            None => None,
        };
        let variables = match self.variables {
            Some(v) => v,
            None => PipelineVariables::new(),
        };
        let user = match self.user {
            Some(v) => v,
            None => None,
        };
        let coverage = match self.coverage {
            Some(v) => v,
            None => None,
        };
        let archived = match self.archived {
            Some(v) => v,
            None => false,
        };
        let started_at = match self.started_at {
            Some(v) => v,
            None => None,
        };
        let finished_at = match self.finished_at {
            Some(v) => v,
            None => None,
        };
        Ok(Pipeline {
            name,
            project,
            sha,
            previous_sha,
            refname,
            stable_refname,
            source,
            schedule,
            parent_pipeline,
            merge_request,
            variables,
            user,
            status,
            coverage,
            forge_id,
            url,
            archived,
            created_at,
            updated_at,
            started_at,
            finished_at,
            cim_fetched_at: now,
            cim_refreshed_at: now,
        })
    }

    /// Build the pipeline as first seen now, or name the first required field that
    /// is missing.
    pub fn build(self) -> (r: Result<Pipeline, PipelineBuilderError>)
        ensures
            match r {
                Ok(v) => self.missing() is None && v@ == self.record(v.cim_fetched_at),
                Err(e) => e matches PipelineBuilderError::UninitializedField(f)
                    && self.missing() == Some(f@),
            },
    {
        self.build_at(Timestamp::now())
    }
}

} // verus!
