//! Jobs, as GitLab reports them.

use vstd::prelude::*;
use crate::data::job::{Job, JobState, JobView};
use crate::data::number::Binary64;
use crate::data::pipeline_variables::PipelineVariablesView;
use crate::forge::{ForgeError, ForgeTask, ForgeTaskOutcome};
use crate::gitlab::forge::GitlabForge;
use crate::objects::vec::data::{Refs, Stamped};
use crate::objects::vec::{find_key, lemma_upsert, record_of, upsert, VecIndex, VecLookupView};
use crate::text::{str_eq, texts};
use crate::time::Timestamp;

verus! {

/// A job in a listing.
#[derive(Debug)]
pub struct GitlabJob {
    pub id: u64,
}

/// The tasks that update each job of a listing of `project`, in its order.
pub open spec fn job_updates(project: u64, listed: Seq<GitlabJob>) -> Seq<ForgeTask> {
    Seq::new(listed.len(), |i: int| ForgeTask::UpdateJob { project, job: listed[i].id })
}

/// Ask for an update of every job that GitLab listed for a pipeline of
/// `project`.
pub fn discover_jobs(project: u64, listed: Vec<GitlabJob>) -> (r: ForgeTaskOutcome)
    ensures
        r.additional_tasks@ == job_updates(project, listed@),
        r.task_delay is None,
{
    let mut tasks: Vec<ForgeTask> = Vec::new();
    let mut i: usize = 0;
    while i < listed.len()
        invariant
            i <= listed.len(),
            tasks@ == job_updates(project, listed@.subrange(0, i as int)),
        decreases listed.len() - i,
    {
        tasks.push(ForgeTask::UpdateJob { project, job: listed[i].id });
        assert(tasks@ =~= job_updates(project, listed@.subrange(0, i + 1)));
        i += 1;
    }
    assert(listed@.subrange(0, listed@.len() as int) =~= listed@);
    ForgeTaskOutcome::with_tasks(tasks)
}

/// The status of a job, as GitLab names it.
#[derive(Debug, Clone, Copy, PartialEq, Eq, Structural)]
pub enum GitlabJobStatus {
    /// `created`
    Created,
    /// `pending`
    Pending,
    /// `running`
    Running,
    /// `failed`
    Failed,
    /// `success`
    Success,
    /// `canceled`
    Canceled,
    /// `skipped`
    Skipped,
    /// `waiting_for_resource`
    WaitingForResource,
    /// `manual`
    Manual,
    /// `scheduled`
    Scheduled,
}

impl GitlabJobStatus {
    /// The state that GitLab writes as `name`.
    pub open spec fn spec_from_name(name: Seq<char>) -> Option<GitlabJobStatus> {
        if name == "created"@ {
            Some(GitlabJobStatus::Created)
        } else if name == "pending"@ {
            Some(GitlabJobStatus::Pending)
        } else if name == "running"@ {
            Some(GitlabJobStatus::Running)
        } else if name == "failed"@ {
            Some(GitlabJobStatus::Failed)
        } else if name == "success"@ {
            Some(GitlabJobStatus::Success)
        } else if name == "canceled"@ {
            Some(GitlabJobStatus::Canceled)
        } else if name == "skipped"@ {
            Some(GitlabJobStatus::Skipped)
        } else if name == "waiting_for_resource"@ {
            Some(GitlabJobStatus::WaitingForResource)
        } else if name == "manual"@ {
            Some(GitlabJobStatus::Manual)
        } else if name == "scheduled"@ {
            Some(GitlabJobStatus::Scheduled)
        } else {
            None
        }
    }

    /// The state of the monitoring model that stands for this one.
    pub open spec fn spec_into(self) -> JobState {
        match self {
            GitlabJobStatus::Created => JobState::Created,
            GitlabJobStatus::Pending => JobState::Pending,
            GitlabJobStatus::Running => JobState::Running,
            GitlabJobStatus::Failed => JobState::Failed,
            GitlabJobStatus::Success => JobState::Success,
            GitlabJobStatus::Canceled => JobState::Canceled,
            GitlabJobStatus::Skipped => JobState::Skipped,
            GitlabJobStatus::WaitingForResource => JobState::WaitingForResource,
            GitlabJobStatus::Manual => JobState::Manual,
            GitlabJobStatus::Scheduled => JobState::Scheduled,
        }
    }

    /// The state that GitLab writes as `name`.
    pub fn from_name(name: &str) -> (r: Option<GitlabJobStatus>)
        ensures
            r == Self::spec_from_name(name@),
    {
        if str_eq(name, "created") {
            Some(GitlabJobStatus::Created)
        } else if str_eq(name, "pending") {
            Some(GitlabJobStatus::Pending)
        } else if str_eq(name, "running") {
            Some(GitlabJobStatus::Running)
        } else if str_eq(name, "failed") {
            Some(GitlabJobStatus::Failed)
        } else if str_eq(name, "success") {
            Some(GitlabJobStatus::Success)
        } else if str_eq(name, "canceled") {
            Some(GitlabJobStatus::Canceled)
        } else if str_eq(name, "skipped") {
            Some(GitlabJobStatus::Skipped)
        } else if str_eq(name, "waiting_for_resource") {
            Some(GitlabJobStatus::WaitingForResource)
        } else if str_eq(name, "manual") {
            Some(GitlabJobStatus::Manual)
        } else if str_eq(name, "scheduled") {
            Some(GitlabJobStatus::Scheduled)
        } else {
            None
        }
    }

    /// The state of the monitoring model that stands for this one.
    pub fn into_model(self) -> (r: JobState)
        ensures
            r == self.spec_into(),
    {
        match self {
            GitlabJobStatus::Created => JobState::Created,
            GitlabJobStatus::Pending => JobState::Pending,
            GitlabJobStatus::Running => JobState::Running,
            GitlabJobStatus::Failed => JobState::Failed,
            GitlabJobStatus::Success => JobState::Success,
            GitlabJobStatus::Canceled => JobState::Canceled,
            GitlabJobStatus::Skipped => JobState::Skipped,
            GitlabJobStatus::WaitingForResource => JobState::WaitingForResource,
            GitlabJobStatus::Manual => JobState::Manual,
            GitlabJobStatus::Scheduled => JobState::Scheduled,
        }
    }
}

/// The user that started a job.
#[derive(Debug)]
pub struct GitlabJobUser {
    pub id: u64,
}

/// The pipeline of a job.
#[derive(Debug)]
pub struct GitlabJobPipeline {
    pub id: u64,
    pub project_id: u64,
}

/// The runner of a job.
#[derive(Debug)]
pub struct GitlabJobRunner {
    pub id: u64,
}

/// A job as GitLab reports it. The coverage is the number that GitLab gives
/// or that its text stands for, where it stands for one.
#[derive(Debug)]
pub struct GitlabJobDetails {
    pub id: u64,
    pub user: GitlabJobUser,
    pub name: String,
    pub stage: String,
    pub status: GitlabJobStatus,
    pub allow_failure: bool,
    pub tag_list: Vec<String>,
    pub web_url: String,
    pub pipeline: GitlabJobPipeline,
    pub runner: Option<GitlabJobRunner>,
    pub created_at: Timestamp,
    pub started_at: Option<Timestamp>,
    pub finished_at: Option<Timestamp>,
    pub erased_at: Option<Timestamp>,
    pub queued_duration: Option<Binary64>,
    pub archived: bool,
    pub coverage: Option<Binary64>,
}

/// The index of the runner of the job, where GitLab names one that the store
/// holds.
pub open spec fn job_runner(storage: VecLookupView, gl: GitlabJobDetails) -> Option<int> {
    match gl.runner {
        Some(runner) => find_key(storage.runners, runner.id),
        None => None,
    }
}

/// The tasks that fetch what the job refers to and the store does not hold:
/// the user, the pipeline, and the runner where GitLab names one.
pub open spec fn job_fetches(storage: VecLookupView, gl: GitlabJobDetails) -> Seq<ForgeTask> {
    let none = Seq::<ForgeTask>::empty();
    let user = if find_key(storage.users, gl.user.id) is None {
        none.push(ForgeTask::UpdateUser { user: gl.user.id })
    } else {
        none
    };
    let pipeline = if find_key(storage.pipelines, gl.pipeline.id) is None {
        user.push(
            ForgeTask::UpdatePipeline { project: gl.pipeline.project_id, pipeline: gl.pipeline.id },
        )
    } else {
        user
    };
    if gl.runner is Some && job_runner(storage, gl) is None {
        pipeline.push(ForgeTask::UpdateRunner { id: gl.runner.unwrap().id })
    } else {
        pipeline
    }
}

/// Whether the store holds the user and the pipeline of the job. A job is
/// stored without its runner while the runner is missing.
pub open spec fn job_resolved(storage: VecLookupView, gl: GitlabJobDetails) -> bool {
    &&& find_key(storage.users, gl.user.id) is Some
    &&& find_key(storage.pipelines, gl.pipeline.id) is Some
}

/// The tasks that follow from a report of a job that the task
/// `UpdateJob { project, job }` asked for: the fetches, and the task itself
/// again while the user or the pipeline is missing.
pub open spec fn job_tasks(
    storage: VecLookupView,
    project: u64,
    job: u64,
    gl: GitlabJobDetails,
) -> Seq<
    ForgeTask,
> {
    if job_resolved(storage, gl) {
        job_fetches(storage, gl)
    } else {
        job_fetches(storage, gl).push(ForgeTask::UpdateJob { project, job })
    }
}

/// The record of a job that the store has not seen, first seen at `now`,
/// before GitLab's report is written into it.
pub open spec fn job_fresh(
    storage: VecLookupView,
    gl: GitlabJobDetails,
    now: Timestamp,
) -> JobView {
    JobView {
        name: gl.name@,
        stage: gl.stage@,
        allow_failure: gl.allow_failure,
        user: VecIndex::at(find_key(storage.users, gl.user.id).unwrap() as usize),
        tags: texts(gl.tag_list@),
        variables: PipelineVariablesView::empty(),
        state: gl.status.spec_into(),
        created_at: gl.created_at,
        started_at: None,
        finished_at: None,
        erased_at: None,
        queued_duration: None,
        runner: match job_runner(storage, gl) {
            Some(i) => Some(VecIndex::at(i as usize)),
            None => None,
        },
        deployment: None,
        forge_id: gl.id,
        archived: false,
        url: gl.web_url@,
        pipeline: VecIndex::at(find_key(storage.pipelines, gl.pipeline.id).unwrap() as usize),
        coverage: None,
        cim_fetched_at: now,
        cim_refreshed_at: now,
    }
}

/// The record `base` brought up to date with what GitLab reports at `now`.
pub open spec fn job_refreshed(base: JobView, gl: GitlabJobDetails, now: Timestamp) -> JobView {
    JobView {
        state: gl.status.spec_into(),
        started_at: gl.started_at,
        finished_at: gl.finished_at,
        erased_at: gl.erased_at,
        queued_duration: gl.queued_duration,
        archived: gl.archived,
        coverage: gl.coverage,
        cim_refreshed_at: base.cim_fetched_at.spec_latest(now),
        ..base
    }
}

/// The record that the store holds for the job after the report, once its
/// user and pipeline are there.
pub open spec fn job_record(
    storage: VecLookupView,
    gl: GitlabJobDetails,
    now: Timestamp,
) -> JobView {
    match record_of(storage.jobs, gl.id) {
        Some(existing) => job_refreshed(existing, gl, now),
        None => job_refreshed(job_fresh(storage, gl, now), gl, now),
    }
}

/// The store after a report of a job: unchanged while the user or the
/// pipeline of the job is missing.
pub open spec fn job_stored(
    storage: VecLookupView,
    gl: GitlabJobDetails,
    now: Timestamp,
) -> VecLookupView {
    if job_resolved(storage, gl) {
        VecLookupView { jobs: upsert(storage.jobs, job_record(storage, gl, now)), ..storage }
    } else {
        storage
    }
}

/// Reconcile a job that GitLab reported at `now` into the store.
///
/// `project` and `job` are those of the task that asked for the report.
pub fn update_job_impl(
    forge: &mut GitlabForge,
    project: u64,
    job: u64,
    gl_job: GitlabJobDetails,
    now: Timestamp,
) -> (r: Result<ForgeTaskOutcome, ForgeError>)
    ensures
        r matches Ok(outcome) && outcome.additional_tasks@ == job_tasks(
            old(forge).storage@,
            project,
            job,
            gl_job,
        ) && outcome.task_delay is None,
        final(forge).instance_idx == old(forge).instance_idx,
        final(forge).storage@ == job_stored(old(forge).storage@, gl_job, now),
        old(forge).wf() && old(forge).storage@.refs_valid() ==> final(forge).wf()
            && final(forge).storage@.refs_valid(),
        old(forge).storage@.ids_unique() ==> final(forge).storage@.ids_unique(),
        old(forge).storage@.stamps_ordered() ==> final(forge).storage@.stamps_ordered(),
{
    let ghost before = forge.storage@;
    let mut tasks: Vec<ForgeTask> = Vec::new();
    let user_idx = match forge.storage.find_user(gl_job.user.id) {
        Some(idx) => Some(idx),
        None => {
            tasks.push(ForgeTask::UpdateUser { user: gl_job.user.id });
            None
        },
    };
    let pipeline_idx = match forge.storage.find_pipeline(gl_job.pipeline.id) {
        Some(idx) => Some(idx),
        None => {
            tasks.push(
                ForgeTask::UpdatePipeline {
                    project: gl_job.pipeline.project_id,
                    pipeline: gl_job.pipeline.id,
                },
            );
            None
        },
    };
    let runner_idx = match &gl_job.runner {
        Some(runner) => match forge.storage.find_runner(runner.id) {
            Some(idx) => Some(idx),
            None => {
                tasks.push(ForgeTask::UpdateRunner { id: runner.id });
                None
            },
        },
        None => None,
    };
    let (user_idx, pipeline_idx) = match (user_idx, pipeline_idx) {
        (Some(u), Some(p)) => (u, p),
        _ => {
            tasks.push(ForgeTask::UpdateJob { project, job });
            return Ok(ForgeTaskOutcome::with_tasks(tasks));
        },
    };
    // Create a job entry.
    let mut entry = match forge.storage.find_job(gl_job.id) {
        Some(idx) => match forge.storage.lookup_job(&idx) {
            Some(existing) => existing.clone(),
            None => {
                assert(false);
                return Err(ForgeError::Other { details: String::new() });
            },
        },
        None => {
            let built = Job::builder().user(user_idx).state(gl_job.status.into_model()).created_at(
                gl_job.created_at,
            ).runner(runner_idx).forge_id(gl_job.id).pipeline(pipeline_idx).name(
                gl_job.name.as_str(),
            ).stage(gl_job.stage.as_str()).allow_failure(gl_job.allow_failure).tags(
                gl_job.tag_list,
            ).url(gl_job.web_url.as_str()).build_at(now);
            match built {
                Ok(fresh) => fresh,
                Err(_) => {
                    assert(false);
                    return Err(ForgeError::Other { details: String::new() });
                },
            }
        },
    };
    entry.state = gl_job.status.into_model();
    entry.started_at = gl_job.started_at;
    entry.finished_at = gl_job.finished_at;
    entry.erased_at = gl_job.erased_at;
    entry.queued_duration = gl_job.queued_duration;
    entry.archived = gl_job.archived;
    entry.coverage = gl_job.coverage;
    entry.cim_refreshed_at = entry.cim_fetched_at.latest(now);
    proof {
        assert(entry@ == job_record(before, gl_job, now));
        lemma_upsert(before.jobs, entry@);
        if forge.wf() && before.refs_valid() {
            match record_of(before.jobs, gl_job.id) {
                Some(existing) => {
                    assert(existing.refs_within(before.counts()));
                },
                None => {},
            }
        }
    }
    // Store the job in the storage.
    forge.storage.store_job(entry);
    proof {
        forge.storage.lemma_fits();
        if before.stamps_ordered() {
            match record_of(before.jobs, gl_job.id) {
                Some(existing) => {
                    assert(existing.in_order());
                },
                None => {},
            }
            before.lemma_store_job_keeps_stamps(job_record(before, gl_job, now));
        }
        if old(forge).wf() && before.refs_valid() {
            before.lemma_store_job_keeps_refs(job_record(before, gl_job, now));
        }
    }
    Ok(ForgeTaskOutcome::with_tasks(tasks))
}

/// Reconcile a job that GitLab just reported into the store.
pub fn update_job(forge: &mut GitlabForge, project: u64, job: u64, gl_job: GitlabJobDetails) -> (r:
    Result<ForgeTaskOutcome, ForgeError>)
    ensures
        r matches Ok(outcome) && outcome.additional_tasks@ == job_tasks(
            old(forge).storage@,
            project,
            job,
            gl_job,
        ) && outcome.task_delay is None,
        final(forge).instance_idx == old(forge).instance_idx,
        exists|now: Timestamp|
            final(forge).storage@ == #[trigger] job_stored(old(forge).storage@, gl_job, now),
        old(forge).wf() && old(forge).storage@.refs_valid() ==> final(forge).wf()
            && final(forge).storage@.refs_valid(),
        old(forge).storage@.ids_unique() ==> final(forge).storage@.ids_unique(),
        old(forge).storage@.stamps_ordered() ==> final(forge).storage@.stamps_ordered(),
{
    update_job_impl(forge, project, job, gl_job, Timestamp::now())
}

} // verus!
