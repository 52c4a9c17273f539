//! The GitLab forge: a store and the instance that its records belong to.

use vstd::prelude::*;
use crate::data::instance::{Instance, InstanceView};
use crate::forge::{ForgeCore, ForgeError, ForgeTask, ForgeTaskOutcome};
use crate::gitlab::tasks::job::{
    discover_jobs, job_stored, job_tasks, job_updates, update_job_impl, GitlabJob, GitlabJobDetails,
};
use crate::gitlab::tasks::merge_request::{
    discover_merge_requests, merge_request_stored, merge_request_tasks, merge_request_updates,
    update_merge_request_impl, GitlabMergeRequest, GitlabMergeRequestDetails,
};
use crate::gitlab::tasks::pipeline::{
    discover_merge_request_pipelines, discover_pipelines, pipeline_stored, pipeline_tasks,
    pipeline_updates, update_pipeline_impl, GitlabPipeline, GitlabPipelineDetails,
};
use crate::gitlab::tasks::pipeline_schedule::{
    discover_pipeline_schedules, pipeline_schedule_stored, pipeline_schedule_tasks,
    pipeline_schedule_updates, update_pipeline_schedule_impl, GitlabPipelineSchedule,
    GitlabPipelineScheduleDetails,
};
use crate::gitlab::tasks::project::{
    project_record, project_tasks, update_project_impl, GitlabProject,
};
use crate::gitlab::tasks::runner::{
    discover_runners, runner_record, runner_updates, update_runner_impl, GitlabRunner,
    GitlabRunnerDetails,
};
use crate::gitlab::tasks::user::{
    update_user_by_name, update_user_impl, user_record, GitlabUser, GitlabUserSearch,
};
use crate::objects::vec::data::{Refs, Stamped};
use crate::time::Timestamp;
use crate::objects::vec::{
    lemma_upsert, lemma_upsert_places, upsert, VecIndex, VecLookup, VecLookupView,
};
use crate::text::str_eq;

verus! {

/// A CI monitoring task handler for GitLab hosts.
#[derive(Debug)]
pub struct GitlabForge {
    /// The store that the forge's records are reconciled into.
    pub storage: VecLookup,
    /// The instance that every record of this forge belongs to.
    pub instance_idx: VecIndex<Instance>,
}

/// Whether an instance is the GitLab instance at `url`.
pub open spec fn is_gitlab_at(instance: InstanceView, url: Seq<char>) -> bool {
    instance.url == url && instance.forge == "gitlab"@
}

/// Whether `i` is the first position of `s` that holds the GitLab instance at
/// `url`.
pub open spec fn is_first_gitlab_at(s: Seq<InstanceView>, url: Seq<char>, i: int) -> bool {
    &&& 0 <= i < s.len()
    &&& is_gitlab_at(s[i], url)
    &&& forall|j: int| 0 <= j < i ==> !is_gitlab_at(#[trigger] s[j], url)
}

/// Whether no instance of `s` is the GitLab instance at `url`.
pub open spec fn no_gitlab_at(s: Seq<InstanceView>, url: Seq<char>) -> bool {
    forall|j: int| 0 <= j < s.len() ==> !is_gitlab_at(#[trigger] s[j], url)
}

/// Whether no two instances of `s` are the same forge at the same URL.
pub open spec fn instances_distinct(s: Seq<InstanceView>) -> bool {
    forall|i: int, j: int|
        #![trigger s[i], s[j]]
        0 <= i < j < s.len() ==> !(s[i].forge == s[j].forge && s[i].url == s[j].url)
}

/// The instance that stands for a GitLab at `url` that the store has not
/// seen: its identity key is the number of instances known so far.
pub open spec fn fresh_instance(count: nat, url: Seq<char>) -> InstanceView {
    InstanceView { unique_id: count as u64, forge: "gitlab"@, url }
}

/// What is asked of GitLab to perform a task.
#[derive(Debug)]
pub enum GitlabRequest {
    /// One project, by its ID.
    Project { project: u64 },
    /// One project, by its path.
    ProjectByName { project: String },
    /// One user, by its ID.
    User { user: u64 },
    /// A search for a user by name.
    UserSearch { user: String },
    /// All runners, every page.
    AllRunners,
    /// One runner.
    Runner { runner: u64 },
    /// The pipeline schedules of a project, every page.
    PipelineSchedules { project: u64 },
    /// One pipeline schedule.
    PipelineSchedule { project: u64, id: u64 },
    /// The merge requests of a project, every page.
    MergeRequests { project: u64 },
    /// One merge request.
    MergeRequest { project: u64, merge_request: u64 },
    /// The pipelines of a project, every page.
    Pipelines { project: u64 },
    /// The pipelines of a merge request, every page.
    MergeRequestPipelines { project: u64, merge_request: u64 },
    /// One pipeline.
    Pipeline { project: u64, pipeline: u64 },
    /// The jobs of a pipeline, retried ones too, every page.
    PipelineJobs { project: u64, pipeline: u64 },
    /// One job.
    Job { project: u64, job: u64 },
}

/// What GitLab answered.
#[derive(Debug)]
pub enum GitlabResponse {
    Project(GitlabProject),
    User(GitlabUser),
    UserSearch(GitlabUserSearch),
    Runners(Vec<GitlabRunner>),
    Runner(GitlabRunnerDetails),
    PipelineSchedules(Vec<GitlabPipelineSchedule>),
    PipelineSchedule(GitlabPipelineScheduleDetails),
    MergeRequests(Vec<GitlabMergeRequest>),
    MergeRequest(GitlabMergeRequestDetails),
    Pipelines(Vec<GitlabPipeline>),
    Pipeline(GitlabPipelineDetails),
    Jobs(Vec<GitlabJob>),
    Job(GitlabJobDetails),
}

/// What is asked of GitLab to perform `task`; nothing for a task that this
/// forge does not handle.
pub open spec fn request_of(task: ForgeTask) -> Option<GitlabRequest> {
    match task {
        ForgeTask::UpdateProject { project } => Some(GitlabRequest::Project { project }),
        ForgeTask::UpdateProjectByName { project } => Some(
            GitlabRequest::ProjectByName { project },
        ),
        ForgeTask::UpdateUserByName { user } => Some(GitlabRequest::UserSearch { user }),
        ForgeTask::UpdateUser { user } => Some(GitlabRequest::User { user }),
        ForgeTask::DiscoverRunners => Some(GitlabRequest::AllRunners),
        ForgeTask::UpdateRunner { id } => Some(GitlabRequest::Runner { runner: id }),
        ForgeTask::DiscoverPipelineSchedules { project } => Some(
            GitlabRequest::PipelineSchedules { project },
        ),
        ForgeTask::UpdatePipelineSchedule { project, schedule } => Some(
            GitlabRequest::PipelineSchedule { project, id: schedule },
        ),
        ForgeTask::DiscoverMergeRequests { project } => Some(
            GitlabRequest::MergeRequests { project },
        ),
        ForgeTask::UpdateMergeRequest { project, merge_request } => Some(
            GitlabRequest::MergeRequest { project, merge_request },
        ),
        ForgeTask::DiscoverPipelines { project } => Some(GitlabRequest::Pipelines { project }),
        ForgeTask::DiscoverMergeRequestPipelines { project, merge_request } => Some(
            GitlabRequest::MergeRequestPipelines { project, merge_request },
        ),
        ForgeTask::UpdatePipeline { project, pipeline } => Some(
            GitlabRequest::Pipeline { project, pipeline },
        ),
        ForgeTask::DiscoverJobs { project, pipeline } => Some(
            GitlabRequest::PipelineJobs { project, pipeline },
        ),
        ForgeTask::UpdateJob { project, job } => Some(GitlabRequest::Job { project, job }),
        _ => None,
    }
}

/// What a task and the answer to its request come to: the tasks that follow
/// and the store afterwards. Nothing where the answer is not one to the
/// request of the task.
pub open spec fn task_result(
    storage: VecLookupView,
    instance: VecIndex<Instance>,
    task: ForgeTask,
    response: GitlabResponse,
    now: Timestamp,
) -> Option<(Seq<ForgeTask>, VecLookupView)> {
    match (task, response) {
        (ForgeTask::UpdateProject { .. }, GitlabResponse::Project(gl)) => Some(
            (
                project_tasks(storage, gl),
                VecLookupView {
                    projects: upsert(storage.projects, project_record(storage, instance, gl, now)),
                    ..storage
                },
            ),
        ),
        (ForgeTask::UpdateProjectByName { .. }, GitlabResponse::Project(gl)) => Some(
            (
                project_tasks(storage, gl),
                VecLookupView {
                    projects: upsert(storage.projects, project_record(storage, instance, gl, now)),
                    ..storage
                },
            ),
        ),
        (ForgeTask::UpdateUserByName { .. }, GitlabResponse::UserSearch(found)) => Some(
            (seq![ForgeTask::UpdateUser { user: found.id }], storage),
        ),
        (ForgeTask::UpdateUser { .. }, GitlabResponse::User(gl)) => Some(
            (
                Seq::empty(),
                VecLookupView {
                    users: upsert(storage.users, user_record(storage, instance, gl, now)),
                    ..storage
                },
            ),
        ),
        (ForgeTask::DiscoverRunners, GitlabResponse::Runners(listed)) => Some(
            (runner_updates(listed@), storage),
        ),
        (ForgeTask::UpdateRunner { .. }, GitlabResponse::Runner(gl)) => Some(
            (
                Seq::empty(),
                VecLookupView {
                    runners: upsert(storage.runners, runner_record(storage, instance, gl, now)),
                    ..storage
                },
            ),
        ),
        (
            ForgeTask::DiscoverPipelineSchedules { project },
            GitlabResponse::PipelineSchedules(listed),
        ) => Some((pipeline_schedule_updates(project, listed@), storage)),
        (ForgeTask::UpdatePipelineSchedule { project, .. }, GitlabResponse::PipelineSchedule(gl)) => {
            Some(
                (
                    pipeline_schedule_tasks(storage, project, gl),
                    pipeline_schedule_stored(storage, project, gl, now),
                ),
            )
        },
        (ForgeTask::DiscoverMergeRequests { project }, GitlabResponse::MergeRequests(listed)) => {
            Some((merge_request_updates(project, listed@), storage))
        },
        (
            ForgeTask::UpdateMergeRequest { project, merge_request },
            GitlabResponse::MergeRequest(gl),
        ) => Some(
            (
                merge_request_tasks(storage, project, merge_request, gl),
                merge_request_stored(storage, gl, now),
            ),
        ),
        (ForgeTask::DiscoverPipelines { .. }, GitlabResponse::Pipelines(listed)) => Some(
            (pipeline_updates(listed@), storage),
        ),
        (ForgeTask::DiscoverMergeRequestPipelines { .. }, GitlabResponse::Pipelines(listed)) => {
            Some((pipeline_updates(listed@), storage))
        },
        (ForgeTask::UpdatePipeline { project, pipeline }, GitlabResponse::Pipeline(gl)) => Some(
            (pipeline_tasks(storage, project, pipeline, gl), pipeline_stored(storage, gl, now)),
        ),
        (ForgeTask::DiscoverJobs { project, .. }, GitlabResponse::Jobs(listed)) => Some(
            (job_updates(project, listed@), storage),
        ),
        (ForgeTask::UpdateJob { project, job }, GitlabResponse::Job(gl)) => Some(
            (job_tasks(storage, project, job, gl), job_stored(storage, gl, now)),
        ),
        _ => None,
    }
}

impl GitlabForge {
    /// The forge's instance is a record of its store.
    pub open spec fn wf(&self) -> bool {
        self.instance_idx.idx < self.storage@.instances.len()
    }

    /// The first instance of `storage` that is the GitLab instance at `url`.
    fn find_instance(storage: &VecLookup, url: &str) -> (r: Option<VecIndex<Instance>>)
        ensures
            match r {
                Some(idx) => is_first_gitlab_at(storage@.instances, url@, idx.idx as int),
                None => no_gitlab_at(storage@.instances, url@),
            },
    {
        let all = storage.all_instance_indices();
        let mut i: usize = 0;
        while i < all.len()
            invariant
                i <= all.len(),
                all@.len() == storage@.instances.len(),
                forall|j: int| 0 <= j < all@.len() ==> (#[trigger] all@[j]).idx == j,
                forall|j: int| 0 <= j < i ==> !is_gitlab_at(#[trigger] storage@.instances[j], url@),
            decreases all.len() - i,
        {
            let idx = all[i];
            match storage.lookup_instance(&idx) {
                Some(inst) => {
                    if str_eq(inst.url.as_str(), url) && str_eq(inst.forge.as_str(), "gitlab") {
                        return Some(idx);
                    }
                },
                None => {},
            }
            i += 1;
        }
        None
    }

    /// Create a new `GitlabForge` from the URL of the GitLab host and storage.
    ///
    /// The forge stands for the first instance of the storage that is the
    /// GitLab instance at `url`; where there is none, one is stored.
    pub fn new(url: &str, storage: VecLookup) -> (r: Self)
        ensures
            r.wf(),
            !no_gitlab_at(storage@.instances, url@) ==> r.storage@ == storage@ && is_first_gitlab_at(
                storage@.instances,
                url@,
                r.instance_idx.idx as int,
            ),
            no_gitlab_at(storage@.instances, url@) ==> r.storage@ == (VecLookupView {
                instances: upsert(
                    storage@.instances,
                    fresh_instance(storage@.instances.len(), url@),
                ),
                ..storage@
            }) && r.storage@.instances[r.instance_idx.idx as int] == fresh_instance(
                storage@.instances.len(),
                url@,
            ),
            storage@.refs_valid() ==> r.storage@.refs_valid(),
            storage@.stamps_ordered() ==> r.storage@.stamps_ordered(),
            storage@.ids_unique() ==> r.storage@.ids_unique(),
            instances_distinct(storage@.instances) ==> instances_distinct(r.storage@.instances),
    {
        let mut storage = storage;
        match Self::find_instance(&storage, url) {
            Some(instance_idx) => {
                assert(is_gitlab_at(storage@.instances[instance_idx.idx as int], url@));
                GitlabForge { storage, instance_idx }
            },
            None => {
                let count = storage.counts().instances;
                let built = Instance::builder().forge("gitlab").url(url).unique_id(
                    count as u64,
                ).build();
                match built {
                    Ok(instance) => {
                        let ghost before = storage@;
                        let instance_idx = storage.store_instance(instance);
                        proof {
                            lemma_upsert(before.instances, instance@);
                            lemma_upsert_places(before.instances, instance@);
                            storage.lemma_fits();
                            if before.refs_valid() {
                                before.lemma_store_instance_keeps_refs(instance@);
                            }
                            if before.stamps_ordered() {
                                before.lemma_store_instance_keeps_stamps(instance@);
                            }
                            if instances_distinct(before.instances) {
                                let after = upsert(before.instances, instance@);
                                assert forall|i: int, j: int|
                                    #![trigger after[i], after[j]]
                                    0 <= i < j < after.len() implies !(after[i].forge
                                    == after[j].forge && after[i].url == after[j].url) by {
                                    if after[i] != instance@ && after[j] != instance@ {
                                        assert(before.instances[i] == after[i]);
                                        assert(before.instances[j] == after[j]);
                                    } else if after[i] != instance@ {
                                        assert(!is_gitlab_at(before.instances[i], url@));
                                    } else if after[j] != instance@ {
                                        assert(!is_gitlab_at(before.instances[j], url@));
                                    }
                                }
                            }
                        }
                        GitlabForge { storage, instance_idx }
                    },
                    Err(_) => {
                        proof {
                            assert(false);
                        }
                        GitlabForge { storage, instance_idx: VecIndex::new(0) }
                    },
                }
            },
        }
    }

    /// What to ask of GitLab to perform `task`. A task that this forge does
    /// not handle comes back in the error.
    pub fn request_for(task: ForgeTask) -> (r: Result<GitlabRequest, ForgeError>)
        ensures
            match r {
                Ok(request) => request_of(task) == Some(request),
                Err(e) => request_of(task) is None && e == (ForgeError::Unhandled { task }),
            },
    {
        match task {
            ForgeTask::UpdateProject { project } => Ok(GitlabRequest::Project { project }),
            ForgeTask::UpdateProjectByName { project } => Ok(
                GitlabRequest::ProjectByName { project },
            ),
            ForgeTask::UpdateUserByName { user } => Ok(GitlabRequest::UserSearch { user }),
            ForgeTask::UpdateUser { user } => Ok(GitlabRequest::User { user }),
            ForgeTask::DiscoverRunners => Ok(GitlabRequest::AllRunners),
            ForgeTask::UpdateRunner { id } => Ok(GitlabRequest::Runner { runner: id }),
            ForgeTask::DiscoverPipelineSchedules { project } => Ok(
                GitlabRequest::PipelineSchedules { project },
            ),
            ForgeTask::UpdatePipelineSchedule { project, schedule } => Ok(
                GitlabRequest::PipelineSchedule { project, id: schedule },
            ),
            ForgeTask::DiscoverMergeRequests { project } => Ok(
                GitlabRequest::MergeRequests { project },
            ),
            ForgeTask::UpdateMergeRequest { project, merge_request } => Ok(
                GitlabRequest::MergeRequest { project, merge_request },
            ),
            ForgeTask::DiscoverPipelines { project } => Ok(GitlabRequest::Pipelines { project }),
            ForgeTask::DiscoverMergeRequestPipelines { project, merge_request } => Ok(
                GitlabRequest::MergeRequestPipelines { project, merge_request },
            ),
            ForgeTask::UpdatePipeline { project, pipeline } => Ok(
                GitlabRequest::Pipeline { project, pipeline },
            ),
            ForgeTask::DiscoverJobs { project, pipeline } => Ok(
                GitlabRequest::PipelineJobs { project, pipeline },
            ),
            ForgeTask::UpdateJob { project, job } => Ok(GitlabRequest::Job { project, job }),
            task => Err(ForgeError::Unhandled { task }),
        }
    }

    /// Run a task with what GitLab answered to its request at `now`.
    ///
    /// A task that this forge does not handle is an error, whatever the answer;
    /// so is an answer to another request than that of the task. Neither
    /// touches the store.
    pub fn run_task(&mut self, task: ForgeTask, response: GitlabResponse, now: Timestamp) -> (r:
        Result<ForgeTaskOutcome, ForgeError>)
        ensures
            final(self).instance_idx == old(self).instance_idx,
            match task_result(old(self).storage@, old(self).instance_idx, task, response, now) {
                Some((tasks, storage)) => r matches Ok(outcome) && outcome.additional_tasks@
                    == tasks && outcome.task_delay is None && final(self).storage@ == storage,
                None => final(self).storage@ == old(self).storage@ && match request_of(task) {
                    Some(_) => r matches Err(ForgeError::Other { .. }),
                    None => r == Err::<ForgeTaskOutcome, ForgeError>(ForgeError::Unhandled { task }),
                },
            },
            old(self).wf() && old(self).storage@.refs_valid() ==> final(self).wf() && final(self).storage@.refs_valid(),
            old(self).storage@.ids_unique() ==> final(self).storage@.ids_unique(),
            old(self).storage@.stamps_ordered() ==> final(self).storage@.stamps_ordered(),
    {
        match (task, response) {
            (ForgeTask::UpdateProject { .. }, GitlabResponse::Project(gl)) => update_project_impl(
                self,
                gl,
                now,
            ),
            (ForgeTask::UpdateProjectByName { .. }, GitlabResponse::Project(gl)) => {
                update_project_impl(self, gl, now)
            },
            (ForgeTask::UpdateUserByName { .. }, GitlabResponse::UserSearch(found)) => Ok(
                update_user_by_name(found),
            ),
            (ForgeTask::UpdateUser { .. }, GitlabResponse::User(gl)) => update_user_impl(
                self,
                gl,
                now,
            ),
            (ForgeTask::DiscoverRunners, GitlabResponse::Runners(listed)) => Ok(
                discover_runners(listed),
            ),
            (ForgeTask::UpdateRunner { .. }, GitlabResponse::Runner(gl)) => update_runner_impl(
                self,
                gl,
                now,
            ),
            (
                ForgeTask::DiscoverPipelineSchedules { project },
                GitlabResponse::PipelineSchedules(listed),
            ) => Ok(discover_pipeline_schedules(project, listed)),
            (
                ForgeTask::UpdatePipelineSchedule { project, .. },
                GitlabResponse::PipelineSchedule(gl),
            ) => update_pipeline_schedule_impl(self, project, gl, now),
            (ForgeTask::DiscoverMergeRequests { project }, GitlabResponse::MergeRequests(listed)) => {
                Ok(discover_merge_requests(project, listed))
            },
            (
                ForgeTask::UpdateMergeRequest { project, merge_request },
                GitlabResponse::MergeRequest(gl),
            ) => update_merge_request_impl(self, project, merge_request, gl, now),
            (ForgeTask::DiscoverPipelines { .. }, GitlabResponse::Pipelines(listed)) => Ok(
                discover_pipelines(listed),
            ),
            (
                ForgeTask::DiscoverMergeRequestPipelines { .. },
                GitlabResponse::Pipelines(listed),
            ) => Ok(discover_merge_request_pipelines(listed)),
            (ForgeTask::UpdatePipeline { project, pipeline }, GitlabResponse::Pipeline(gl)) => {
                update_pipeline_impl(self, project, pipeline, gl, now)
            },
            (ForgeTask::DiscoverJobs { project, .. }, GitlabResponse::Jobs(listed)) => Ok(
                discover_jobs(project, listed),
            ),
            (ForgeTask::UpdateJob { project, job }, GitlabResponse::Job(gl)) => update_job_impl(
                self,
                project,
                job,
                gl,
                now,
            ),
            (task, _) => match Self::request_for(task) {
                Ok(_) => Err(
                    ForgeError::Other { details: "the answer is not one to the task".to_owned() },
                ),
                Err(e) => Err(e),
            },
        }
    }

    /// Extract the storage from the forge.
    pub fn into_storage(self) -> (r: VecLookup)
        ensures
            r == self.storage,
    {
        self.storage
    }

    /// The index of the forge's instance.
    pub fn instance_index(&self) -> (r: VecIndex<Instance>)
        ensures
            r == self.instance_idx,
    {
        self.instance_idx
    }

    /// The forge's instance, if the store holds it.
    pub fn find_own_instance(&self) -> (r: Option<Instance>)
        ensures
            match r {
                Some(v) => self.wf() && v@ == self.storage@.instances[self.instance_idx.idx as int],
                None => !self.wf(),
            },
    {
        match self.storage.lookup_instance(&self.instance_idx) {
            Some(instance) => Some(instance.clone()),
            None => None,
        }
    }
}

impl ForgeCore for GitlabForge {
    open spec fn knows_instance(&self) -> bool {
        self.wf()
    }

    open spec fn spec_instance(&self) -> InstanceView {
        self.storage@.instances[self.instance_idx.idx as int]
    }

    fn instance(&self) -> (r: Instance) {
        match self.find_own_instance() {
            Some(instance) => instance,
            None => {
                assert(false);
                Instance { unique_id: 0, forge: String::new(), url: String::new() }
            },
        }
    }
}

} // verus!
