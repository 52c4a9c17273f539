//! Pipelines, as GitLab reports them.

use vstd::prelude::*;
use crate::data::number::Binary64;
use crate::data::pipeline::{Pipeline, PipelineSource, PipelineStatus, PipelineView};
use crate::data::pipeline_variables::PipelineVariablesView;
use crate::forge::{ForgeError, ForgeTask, ForgeTaskOutcome};
use crate::gitlab::forge::GitlabForge;
use crate::objects::vec::data::{Refs, Stamped};
use crate::objects::vec::{find_key, lemma_upsert, record_of, upsert, VecIndex, VecLookupView};
use crate::text::{decimal, decimal_string, joined, opt_text, str_eq};
use crate::time::Timestamp;

verus! {

/// A pipeline in a listing.
#[derive(Debug)]
pub struct GitlabPipeline {
    pub id: u64,
    pub project_id: u64,
}

/// The tasks that update each pipeline of a listing, in its order, each in
/// the project that GitLab names for it.
pub open spec fn pipeline_updates(listed: Seq<GitlabPipeline>) -> Seq<ForgeTask> {
    Seq::new(
        listed.len(),
        |i: int| ForgeTask::UpdatePipeline { project: listed[i].project_id, pipeline: listed[i].id },
    )
}

/// The tasks that update each listed pipeline.
fn pipeline_update_tasks(listed: &Vec<GitlabPipeline>) -> (tasks: Vec<ForgeTask>)
    ensures
        tasks@ == pipeline_updates(listed@),
{
    let mut tasks: Vec<ForgeTask> = Vec::new();
    let mut i: usize = 0;
    while i < listed.len()
        invariant
            i <= listed.len(),
            tasks@ == pipeline_updates(listed@.subrange(0, i as int)),
        decreases listed.len() - i,
    {
        tasks.push(
            ForgeTask::UpdatePipeline { project: listed[i].project_id, pipeline: listed[i].id },
        );
        assert(tasks@ =~= pipeline_updates(listed@.subrange(0, i + 1)));
        i += 1;
    }
    assert(listed@.subrange(0, listed@.len() as int) =~= listed@);
    tasks
}

/// Ask for an update of every pipeline that GitLab listed for a project.
pub fn discover_pipelines(listed: Vec<GitlabPipeline>) -> (r: ForgeTaskOutcome)
    ensures
        r.additional_tasks@ == pipeline_updates(listed@),
        r.task_delay is None,
{
    ForgeTaskOutcome::with_tasks(pipeline_update_tasks(&listed))
}

/// Ask for an update of every pipeline that GitLab listed for a merge
/// request.
pub fn discover_merge_request_pipelines(listed: Vec<GitlabPipeline>) -> (r: ForgeTaskOutcome)
    ensures
        r.additional_tasks@ == pipeline_updates(listed@),
        r.task_delay is None,
{
    ForgeTaskOutcome::with_tasks(pipeline_update_tasks(&listed))
}

/// Why a pipeline was created, as GitLab names it.
#[derive(Debug, Clone, Copy, PartialEq, Eq, Structural)]
pub enum GitlabPipelineSource {
    /// `push`
    Push,
    /// `web`
    Web,
    /// `trigger`
    Trigger,
    /// `schedule`
    Schedule,
    /// `api`
    Api,
    /// `external`
    External,
    /// `pipeline`
    Pipeline,
    /// `chat`
    Chat,
    /// `web_ide`
    WebIde,
    /// `merge_request_event`
    MergeRequestEvent,
    /// `external_pull_request_event`
    ExternalPullRequestEvent,
    /// `parent_pipeline`
    ParentPipeline,
    /// `ondemand_dast_scan`
    OnDemandDastScan,
    /// `ondemand_dast_validation`
    OnDemandDastValidation,
    /// `security_orchestration_policy`
    SecurityOrchestrationPolicy,
}

impl GitlabPipelineSource {
    /// The source that GitLab writes as `name`.
    pub open spec fn spec_from_name(name: Seq<char>) -> Option<GitlabPipelineSource> {
        if name == "push"@ {
            Some(GitlabPipelineSource::Push)
        } else if name == "web"@ {
            Some(GitlabPipelineSource::Web)
        } else if name == "trigger"@ {
            Some(GitlabPipelineSource::Trigger)
        } else if name == "schedule"@ {
            Some(GitlabPipelineSource::Schedule)
        } else if name == "api"@ {
            Some(GitlabPipelineSource::Api)
        } else if name == "external"@ {
            Some(GitlabPipelineSource::External)
        } else if name == "pipeline"@ {
            Some(GitlabPipelineSource::Pipeline)
        } else if name == "chat"@ {
            Some(GitlabPipelineSource::Chat)
        } else if name == "web_ide"@ {
            Some(GitlabPipelineSource::WebIde)
        } else if name == "merge_request_event"@ {
            Some(GitlabPipelineSource::MergeRequestEvent)
        } else if name == "external_pull_request_event"@ {
            Some(GitlabPipelineSource::ExternalPullRequestEvent)
        } else if name == "parent_pipeline"@ {
            Some(GitlabPipelineSource::ParentPipeline)
        } else if name == "ondemand_dast_scan"@ {
            Some(GitlabPipelineSource::OnDemandDastScan)
        } else if name == "ondemand_dast_validation"@ {
            Some(GitlabPipelineSource::OnDemandDastValidation)
        } else if name == "security_orchestration_policy"@ {
            Some(GitlabPipelineSource::SecurityOrchestrationPolicy)
        } else {
            None
        }
    }

    /// The source of the monitoring model that stands for this one.
    pub open spec fn spec_into(self) -> PipelineSource {
        match self {
            GitlabPipelineSource::Push => PipelineSource::Push,
            GitlabPipelineSource::Web => PipelineSource::Web,
            GitlabPipelineSource::Trigger => PipelineSource::Trigger,
            GitlabPipelineSource::Schedule => PipelineSource::Schedule,
            GitlabPipelineSource::Api => PipelineSource::Api,
            GitlabPipelineSource::External => PipelineSource::External,
            GitlabPipelineSource::Pipeline => PipelineSource::Pipeline,
            GitlabPipelineSource::Chat => PipelineSource::Chat,
            GitlabPipelineSource::WebIde => PipelineSource::WebIde,
            GitlabPipelineSource::MergeRequestEvent => PipelineSource::MergeRequestEvent,
            GitlabPipelineSource::ExternalPullRequestEvent => PipelineSource::ExternalPullRequestEvent,
            GitlabPipelineSource::ParentPipeline => PipelineSource::ParentPipeline,
            GitlabPipelineSource::OnDemandDastScan => PipelineSource::OnDemandDastScan,
            GitlabPipelineSource::OnDemandDastValidation => PipelineSource::OnDemandDastValidation,
            GitlabPipelineSource::SecurityOrchestrationPolicy => PipelineSource::SecurityOrchestrationPolicy,
        }
    }

    /// The source that GitLab writes as `name`.
    pub fn from_name(name: &str) -> (r: Option<GitlabPipelineSource>)
        ensures
            r == Self::spec_from_name(name@),
    {
        if str_eq(name, "push") {
            Some(GitlabPipelineSource::Push)
        } else if str_eq(name, "web") {
            Some(GitlabPipelineSource::Web)
        } else if str_eq(name, "trigger") {
            Some(GitlabPipelineSource::Trigger)
        } else if str_eq(name, "schedule") {
            Some(GitlabPipelineSource::Schedule)
        } else if str_eq(name, "api") {
            Some(GitlabPipelineSource::Api)
        } else if str_eq(name, "external") {
            Some(GitlabPipelineSource::External)
        } else if str_eq(name, "pipeline") {
            Some(GitlabPipelineSource::Pipeline)
        } else if str_eq(name, "chat") {
            Some(GitlabPipelineSource::Chat)
        } else if str_eq(name, "web_ide") {
            Some(GitlabPipelineSource::WebIde)
        } else if str_eq(name, "merge_request_event") {
            Some(GitlabPipelineSource::MergeRequestEvent)
        } else if str_eq(name, "external_pull_request_event") {
            Some(GitlabPipelineSource::ExternalPullRequestEvent)
        } else if str_eq(name, "parent_pipeline") {
            Some(GitlabPipelineSource::ParentPipeline)
        } else if str_eq(name, "ondemand_dast_scan") {
            Some(GitlabPipelineSource::OnDemandDastScan)
        } else if str_eq(name, "ondemand_dast_validation") {
            Some(GitlabPipelineSource::OnDemandDastValidation)
        } else if str_eq(name, "security_orchestration_policy") {
            Some(GitlabPipelineSource::SecurityOrchestrationPolicy)
        } else {
            None
        }
    }

    /// The source of the monitoring model that stands for this one.
    pub fn into_model(self) -> (r: PipelineSource)
        ensures
            r == self.spec_into(),
    {
        match self {
            GitlabPipelineSource::Push => PipelineSource::Push,
            GitlabPipelineSource::Web => PipelineSource::Web,
            GitlabPipelineSource::Trigger => PipelineSource::Trigger,
            GitlabPipelineSource::Schedule => PipelineSource::Schedule,
            GitlabPipelineSource::Api => PipelineSource::Api,
            GitlabPipelineSource::External => PipelineSource::External,
            GitlabPipelineSource::Pipeline => PipelineSource::Pipeline,
            GitlabPipelineSource::Chat => PipelineSource::Chat,
            GitlabPipelineSource::WebIde => PipelineSource::WebIde,
            GitlabPipelineSource::MergeRequestEvent => PipelineSource::MergeRequestEvent,
            GitlabPipelineSource::ExternalPullRequestEvent => PipelineSource::ExternalPullRequestEvent,
            GitlabPipelineSource::ParentPipeline => PipelineSource::ParentPipeline,
            GitlabPipelineSource::OnDemandDastScan => PipelineSource::OnDemandDastScan,
            GitlabPipelineSource::OnDemandDastValidation => PipelineSource::OnDemandDastValidation,
            GitlabPipelineSource::SecurityOrchestrationPolicy => PipelineSource::SecurityOrchestrationPolicy,
        }
    }
}

/// The status of a pipeline, as GitLab names it.
#[derive(Debug, Clone, Copy, PartialEq, Eq, Structural)]
pub enum GitlabPipelineStatus {
    /// `running`
    Running,
    /// `pending`
    Pending,
    /// `success`
    Success,
    /// `failed`
    Failed,
    /// `canceled`
    Canceled,
    /// `skipped`
    Skipped,
    /// `created`
    Created,
    /// `manual`
    Manual,
    /// `scheduled`
    Scheduled,
    /// `preparing`
    Preparing,
    /// `waiting_for_resource`
    WaitingForResource,
}

impl GitlabPipelineStatus {
    /// The status that GitLab writes as `name`.
    pub open spec fn spec_from_name(name: Seq<char>) -> Option<GitlabPipelineStatus> {
        if name == "running"@ {
            Some(GitlabPipelineStatus::Running)
        } else if name == "pending"@ {
            Some(GitlabPipelineStatus::Pending)
        } else if name == "success"@ {
            Some(GitlabPipelineStatus::Success)
        } else if name == "failed"@ {
            Some(GitlabPipelineStatus::Failed)
        } else if name == "canceled"@ {
            Some(GitlabPipelineStatus::Canceled)
        } else if name == "skipped"@ {
            Some(GitlabPipelineStatus::Skipped)
        } else if name == "created"@ {
            Some(GitlabPipelineStatus::Created)
        } else if name == "manual"@ {
            Some(GitlabPipelineStatus::Manual)
        } else if name == "scheduled"@ {
            Some(GitlabPipelineStatus::Scheduled)
        } else if name == "preparing"@ {
            Some(GitlabPipelineStatus::Preparing)
        } else if name == "waiting_for_resource"@ {
            Some(GitlabPipelineStatus::WaitingForResource)
        } else {
            None
        }
    }

    /// The status of the monitoring model that stands for this one.
    pub open spec fn spec_into(self) -> PipelineStatus {
        match self {
            GitlabPipelineStatus::Running => PipelineStatus::Running,
            GitlabPipelineStatus::Pending => PipelineStatus::Pending,
            GitlabPipelineStatus::Success => PipelineStatus::Success,
            GitlabPipelineStatus::Failed => PipelineStatus::Failed,
            GitlabPipelineStatus::Canceled => PipelineStatus::Canceled,
            GitlabPipelineStatus::Skipped => PipelineStatus::Skipped,
            GitlabPipelineStatus::Created => PipelineStatus::Created,
            GitlabPipelineStatus::Manual => PipelineStatus::Manual,
            GitlabPipelineStatus::Scheduled => PipelineStatus::Scheduled,
            GitlabPipelineStatus::Preparing => PipelineStatus::Preparing,
            GitlabPipelineStatus::WaitingForResource => PipelineStatus::WaitingForResource,
        }
    }

    /// The status that GitLab writes as `name`.
    pub fn from_name(name: &str) -> (r: Option<GitlabPipelineStatus>)
        ensures
            r == Self::spec_from_name(name@),
    {
        if str_eq(name, "running") {
            Some(GitlabPipelineStatus::Running)
        } else if str_eq(name, "pending") {
            Some(GitlabPipelineStatus::Pending)
        } else if str_eq(name, "success") {
            Some(GitlabPipelineStatus::Success)
        } else if str_eq(name, "failed") {
            Some(GitlabPipelineStatus::Failed)
        } else if str_eq(name, "canceled") {
            Some(GitlabPipelineStatus::Canceled)
        } else if str_eq(name, "skipped") {
            Some(GitlabPipelineStatus::Skipped)
        } else if str_eq(name, "created") {
            Some(GitlabPipelineStatus::Created)
        } else if str_eq(name, "manual") {
            Some(GitlabPipelineStatus::Manual)
        } else if str_eq(name, "scheduled") {
            Some(GitlabPipelineStatus::Scheduled)
        } else if str_eq(name, "preparing") {
            Some(GitlabPipelineStatus::Preparing)
        } else if str_eq(name, "waiting_for_resource") {
            Some(GitlabPipelineStatus::WaitingForResource)
        } else {
            None
        }
    }

    /// The status of the monitoring model that stands for this one.
    pub fn into_model(self) -> (r: PipelineStatus)
        ensures
            r == self.spec_into(),
    {
        match self {
            GitlabPipelineStatus::Running => PipelineStatus::Running,
            GitlabPipelineStatus::Pending => PipelineStatus::Pending,
            GitlabPipelineStatus::Success => PipelineStatus::Success,
            GitlabPipelineStatus::Failed => PipelineStatus::Failed,
            GitlabPipelineStatus::Canceled => PipelineStatus::Canceled,
            GitlabPipelineStatus::Skipped => PipelineStatus::Skipped,
            GitlabPipelineStatus::Created => PipelineStatus::Created,
            GitlabPipelineStatus::Manual => PipelineStatus::Manual,
            GitlabPipelineStatus::Scheduled => PipelineStatus::Scheduled,
            GitlabPipelineStatus::Preparing => PipelineStatus::Preparing,
            GitlabPipelineStatus::WaitingForResource => PipelineStatus::WaitingForResource,
        }
    }
}

/// The user that started a pipeline.
#[derive(Debug)]
pub struct GitlabPipelineUser {
    pub id: u64,
}

/// A pipeline as GitLab reports it. The coverage is the number that GitLab's
/// text stands for, where it stands for one.
#[derive(Debug)]
pub struct GitlabPipelineDetails {
    pub id: u64,
    pub project_id: u64,
    pub name: Option<String>,
    pub sha: String,
    pub previous_sha: Option<String>,
    pub ref_: Option<String>,
    pub source: GitlabPipelineSource,
    pub user: Option<GitlabPipelineUser>,
    pub status: GitlabPipelineStatus,
    pub coverage: Option<Binary64>,
    pub web_url: String,
    pub created_at: Timestamp,
    pub updated_at: Timestamp,
    pub started_at: Option<Timestamp>,
    pub finished_at: Option<Timestamp>,
}

/// The index of the user that started the pipeline, where GitLab names one
/// that the store holds.
pub open spec fn pipeline_user(storage: VecLookupView, gl: GitlabPipelineDetails) -> Option<int> {
    match gl.user {
        Some(user) => find_key(storage.users, user.id),
        None => None,
    }
}

/// The tasks that fetch what the pipeline refers to and the store does not
/// hold: the user, where GitLab names one, and the project.
pub open spec fn pipeline_fetches(storage: VecLookupView, gl: GitlabPipelineDetails) -> Seq<
    ForgeTask,
> {
    let none = Seq::<ForgeTask>::empty();
    let user = if gl.user is Some && pipeline_user(storage, gl) is None {
        none.push(ForgeTask::UpdateUser { user: gl.user.unwrap().id })
    } else {
        none
    };
    if find_key(storage.projects, gl.project_id) is None {
        user.push(ForgeTask::UpdateProject { project: gl.project_id })
    } else {
        user
    }
}

/// Whether the store holds the project of the pipeline. A pipeline is stored
/// without its user while the user is missing.
pub open spec fn pipeline_resolved(storage: VecLookupView, gl: GitlabPipelineDetails) -> bool {
    find_key(storage.projects, gl.project_id) is Some
}

/// The tasks that follow from a report of a pipeline that the task
/// `UpdatePipeline { project, pipeline }` asked for: the fetches, and then
/// the task itself again while the project is missing, else the discovery of
/// the pipeline's jobs.
pub open spec fn pipeline_tasks(
    storage: VecLookupView,
    project: u64,
    pipeline: u64,
    gl: GitlabPipelineDetails,
) -> Seq<ForgeTask> {
    if pipeline_resolved(storage, gl) {
        pipeline_fetches(storage, gl).push(
            ForgeTask::DiscoverJobs { project: gl.project_id, pipeline: gl.id },
        )
    } else {
        pipeline_fetches(storage, gl).push(ForgeTask::UpdatePipeline { project, pipeline })
    }
}

/// The ref that stands for a pipeline whatever happens to its branch.
pub open spec fn stable_refname(id: u64) -> Seq<char> {
    "refs/pipelines/"@ + decimal(id as nat)
}

/// The ref that a pipeline builds: `refs/UNKNOWN` where GitLab names none.
pub open spec fn pipeline_refname(gl: GitlabPipelineDetails) -> Seq<char> {
    match gl.ref_ {
        Some(name) => name@,
        None => "refs/UNKNOWN"@,
    }
}

/// The record of a pipeline that the store has not seen, first seen at
/// `now`, before GitLab's report is written into it.
pub open spec fn pipeline_fresh(
    storage: VecLookupView,
    gl: GitlabPipelineDetails,
    now: Timestamp,
) -> PipelineView {
    PipelineView {
        name: opt_text(gl.name),
        project: VecIndex::at(find_key(storage.projects, gl.project_id).unwrap() as usize),
        sha: gl.sha@,
        previous_sha: opt_text(gl.previous_sha),
        refname: Some(pipeline_refname(gl)),
        stable_refname: Some(stable_refname(gl.id)),
        source: gl.source.spec_into(),
        schedule: None,
        parent_pipeline: None,
        merge_request: None,
        variables: PipelineVariablesView::empty(),
        user: None,
        status: gl.status.spec_into(),
        coverage: None,
        forge_id: gl.id,
        url: gl.web_url@,
        archived: false,
        created_at: gl.created_at,
        updated_at: gl.updated_at,
        started_at: None,
        finished_at: None,
        cim_fetched_at: now,
        cim_refreshed_at: now,
    }
}

/// The record `base` brought up to date with what GitLab reports at `now`.
/// The user changes only where GitLab names one that the store holds.
pub open spec fn pipeline_refreshed(
    storage: VecLookupView,
    base: PipelineView,
    gl: GitlabPipelineDetails,
    now: Timestamp,
) -> PipelineView {
    PipelineView {
        status: gl.status.spec_into(),
        coverage: gl.coverage,
        user: match pipeline_user(storage, gl) {
            Some(i) => Some(VecIndex::at(i as usize)),
            None => base.user,
        },
        started_at: gl.started_at,
        finished_at: gl.finished_at,
        cim_refreshed_at: base.cim_fetched_at.spec_latest(now),
        ..base
    }
}

/// The record that the store holds for the pipeline after the report, once
/// its project is there.
pub open spec fn pipeline_record(
    storage: VecLookupView,
    gl: GitlabPipelineDetails,
    now: Timestamp,
) -> PipelineView {
    match record_of(storage.pipelines, gl.id) {
        Some(existing) => pipeline_refreshed(storage, existing, gl, now),
        None => pipeline_refreshed(storage, pipeline_fresh(storage, gl, now), gl, now),
    }
}

/// The store after a report of a pipeline: unchanged while the project of
/// the pipeline is missing.
pub open spec fn pipeline_stored(
    storage: VecLookupView,
    gl: GitlabPipelineDetails,
    now: Timestamp,
) -> VecLookupView {
    if pipeline_resolved(storage, gl) {
        VecLookupView { pipelines: upsert(storage.pipelines, pipeline_record(storage, gl, now)), ..storage }
    } else {
        storage
    }
}

/// Reconcile a pipeline that GitLab reported at `now` into the store.
///
/// `project` and `pipeline` are those of the task that asked for the report.
pub fn update_pipeline_impl(
    forge: &mut GitlabForge,
    project: u64,
    pipeline: u64,
    gl_pipeline: GitlabPipelineDetails,
    now: Timestamp,
) -> (r: Result<ForgeTaskOutcome, ForgeError>)
    ensures
        r matches Ok(outcome) && outcome.additional_tasks@ == pipeline_tasks(
            old(forge).storage@,
            project,
            pipeline,
            gl_pipeline,
        ) && outcome.task_delay is None,
        final(forge).instance_idx == old(forge).instance_idx,
        final(forge).storage@ == pipeline_stored(old(forge).storage@, gl_pipeline, now),
        old(forge).wf() && old(forge).storage@.refs_valid() ==> final(forge).wf()
            && final(forge).storage@.refs_valid(),
        old(forge).storage@.ids_unique() ==> final(forge).storage@.ids_unique(),
        old(forge).storage@.stamps_ordered() ==> final(forge).storage@.stamps_ordered(),
{
    let ghost before = forge.storage@;
    let mut tasks: Vec<ForgeTask> = Vec::new();
    let user_idx = match &gl_pipeline.user {
        Some(user) => match forge.storage.find_user(user.id) {
            Some(idx) => Some(idx),
            None => {
                tasks.push(ForgeTask::UpdateUser { user: user.id });
                None
            },
        },
        None => None,
    };
    let project_idx = match forge.storage.find_project(gl_pipeline.project_id) {
        Some(idx) => Some(idx),
        None => {
            tasks.push(ForgeTask::UpdateProject { project: gl_pipeline.project_id });
            None
        },
    };
    let project_idx = match project_idx {
        Some(p) => p,
        None => {
            tasks.push(ForgeTask::UpdatePipeline { project, pipeline });
            return Ok(ForgeTaskOutcome::with_tasks(tasks));
        },
    };
    tasks.push(
        ForgeTask::DiscoverJobs { project: gl_pipeline.project_id, pipeline: gl_pipeline.id },
    );
    // Create a pipeline entry.
    let mut entry = match forge.storage.find_pipeline(gl_pipeline.id) {
        Some(idx) => match forge.storage.lookup_pipeline(&idx) {
            Some(existing) => existing.clone(),
            None => {
                assert(false);
                return Err(ForgeError::Other { details: String::new() });
            },
        },
        None => {
            let refname = match gl_pipeline.ref_ {
                Some(name) => name,
                None => "refs/UNKNOWN".to_owned(),
            };
            let stable = joined("refs/pipelines/", decimal_string(gl_pipeline.id).as_str());
            let built = Pipeline::builder().forge_id(gl_pipeline.id).project(project_idx).sha(
                gl_pipeline.sha.as_str(),
            ).previous_sha(gl_pipeline.previous_sha).refname(Some(refname)).stable_refname(
                Some(stable),
            ).source(gl_pipeline.source.into_model()).status(gl_pipeline.status.into_model()).url(
                gl_pipeline.web_url.as_str(),
            ).created_at(gl_pipeline.created_at).updated_at(gl_pipeline.updated_at).name(
                gl_pipeline.name,
            ).build_at(now);
            match built {
                Ok(fresh) => fresh,
                Err(_) => {
                    assert(false);
                    return Err(ForgeError::Other { details: String::new() });
                },
            }
        },
    };
    entry.status = gl_pipeline.status.into_model();
    entry.coverage = gl_pipeline.coverage;
    if user_idx.is_some() {
        entry.user = user_idx;
    }
    entry.started_at = gl_pipeline.started_at;
    entry.finished_at = gl_pipeline.finished_at;
    entry.cim_refreshed_at = entry.cim_fetched_at.latest(now);
    proof {
        assert(entry@ == pipeline_record(before, gl_pipeline, now));
        lemma_upsert(before.pipelines, entry@);
        if forge.wf() && before.refs_valid() {
            match record_of(before.pipelines, gl_pipeline.id) {
                Some(existing) => {
                    assert(existing.refs_within(before.counts()));
                },
                None => {},
            }
        }
    }
    // Store the pipeline in the storage.
    forge.storage.store_pipeline(entry);
    proof {
        forge.storage.lemma_fits();
        if before.stamps_ordered() {
            match record_of(before.pipelines, gl_pipeline.id) {
                Some(existing) => {
                    assert(existing.in_order());
                },
                None => {},
            }
            before.lemma_store_pipeline_keeps_stamps(pipeline_record(before, gl_pipeline, now));
        }
        if old(forge).wf() && before.refs_valid() {
            before.lemma_store_pipeline_keeps_refs(pipeline_record(before, gl_pipeline, now));
        }
    }
    Ok(ForgeTaskOutcome::with_tasks(tasks))
}

/// Reconcile a pipeline that GitLab just reported into the store.
pub fn update_pipeline(
    forge: &mut GitlabForge,
    project: u64,
    pipeline: u64,
    gl_pipeline: GitlabPipelineDetails,
) -> (r: Result<ForgeTaskOutcome, ForgeError>)
    ensures
        r matches Ok(outcome) && outcome.additional_tasks@ == pipeline_tasks(
            old(forge).storage@,
            project,
            pipeline,
            gl_pipeline,
        ) && outcome.task_delay is None,
        final(forge).instance_idx == old(forge).instance_idx,
        exists|now: Timestamp|
            final(forge).storage@ == #[trigger] pipeline_stored(
                old(forge).storage@,
                gl_pipeline,
                now,
            ),
        old(forge).wf() && old(forge).storage@.refs_valid() ==> final(forge).wf()
            && final(forge).storage@.refs_valid(),
        old(forge).storage@.ids_unique() ==> final(forge).storage@.ids_unique(),
        old(forge).storage@.stamps_ordered() ==> final(forge).storage@.stamps_ordered(),
{
    update_pipeline_impl(forge, project, pipeline, gl_pipeline, Timestamp::now())
}

} // verus!
