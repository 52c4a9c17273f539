//! Tasks that a forge is asked to perform, and what comes of them.

use vstd::prelude::*;
use std::time::Duration;
use crate::data::instance::{Instance, InstanceView};
use crate::data::number::Binary64;

verus! {

/// The outcome of a forge task.
#[derive(Debug, Clone)]
pub struct ForgeTaskOutcome {
    /// Additional tasks that were discovered during the task.
    pub additional_tasks: Vec<ForgeTask>,
    /// How long to delay the given tasks.
    ///
    /// Maybe used to avoid API rate limits.
    pub task_delay: Option<Duration>,
}

impl ForgeTaskOutcome {
    /// The outcome without tasks and without a delay.
    pub fn new() -> (r: Self)
        ensures
            r.additional_tasks@ == Seq::<ForgeTask>::empty(),
            r.task_delay is None,
    {
        ForgeTaskOutcome { additional_tasks: Vec::new(), task_delay: None }
    }

    /// The outcome that asks for `tasks`, without a delay.
    pub fn with_tasks(tasks: Vec<ForgeTask>) -> (r: Self)
        ensures
            r.additional_tasks == tasks,
            r.task_delay is None,
    {
        ForgeTaskOutcome { additional_tasks: tasks, task_delay: None }
    }
}

impl Default for ForgeTaskOutcome {
    fn default() -> (r: Self)
        ensures
            r.additional_tasks@ == Seq::<ForgeTask>::empty(),
            r.task_delay is None,
    {
        ForgeTaskOutcome::new()
    }
}

/// An error that may occur when performing a task.
#[derive(Debug)]
pub enum ForgeError {
    /// Authentication failed.
    Auth {
        /// Details of the error.
        details: String,
    },
    /// The connection to the forge failed.
    Connection {
        /// Details of the error.
        details: String,
    },
    /// The forge does not handle the specified task.
    Unhandled {
        /// The unhandled task.
        task: ForgeTask,
    },
    /// The forge does not know about the specified task.
    Unknown {
        /// The unknown task.
        task: ForgeTask,
    },
    /// An uncategorized error.
    Other {
        /// Details of the error.
        details: String,
    },
}

/// A trait describing basic `Forge` capabilities.
pub trait ForgeCore {
    /// Whether the forge holds the description of its instance.
    spec fn knows_instance(&self) -> bool;

    /// What the description of the forge's instance says.
    spec fn spec_instance(&self) -> InstanceView;

    /// Obtain the `Instance` description for the forge.
    fn instance(&self) -> (r: Instance)
        requires
            self.knows_instance(),
        ensures
            r@ == self.spec_instance(),
    ;
}

/// Metadata about a runner host that may be set.
#[derive(Debug, Clone)]
pub struct RunnerHostData {
    /// The operating system.
    pub os: Option<String>,
    /// The version of the operating system.
    pub os_version: Option<String>,
    /// How the host is managed.
    pub management: Option<String>,
    /// Where the host resides.
    pub location: Option<String>,
    /// An estimate of how much it costs to run tasks per hour.
    ///
    /// If provided, this can be used to estimate how much jobs, pipelines, projects, etc. cost.
    pub estimated_cost_per_hour: Option<Option<Binary64>>,
}

/// Maintenance tasks separate from forge tasks.
///
/// These still assume a given forge, but do not require actual forge communication.
#[derive(Debug, Clone)]
pub enum MaintenanceTask {
    /// Discover stale data within the store and schedule refreshes.
    DiscoverStaleData,
    /// Update a runner host.
    ///
    /// If not known, a new host is stored.
    UpdateRunnerHost {
        /// The name of the host.
        name: String,
        /// New data for the host.
        data: RunnerHostData,
    },
    /// Assign a runner to a host.
    AssignRunnerToHost {
        /// The runner to assign.
        runner: u64,
        /// The name of the host to assign.
        host: u64,
    },
}

/// Tasks which require information from a forge.
///
/// All tasks are implicitly for a given `Instance`, so such information is not present within the
/// task itself.
#[derive(Debug, Clone, PartialEq, Eq)]
pub enum ForgeTask {
    /// Update a project by name.
    ///
    /// If not known, a new project is stored.
    UpdateProjectByName {
        /// The name of the project.
        project: String,
    },
    /// Update a project.
    ///
    /// If not known, a new project is stored.
    UpdateProject {
        /// The ID of the project.
        project: u64,
    },
    /// Update a user by name.
    ///
    /// If not known, a new user is stored.
    UpdateUserByName {
        /// The name of the user.
        user: String,
    },
    /// Update a user.
    ///
    /// If not known, a new user is stored.
    UpdateUser {
        /// The ID of the user.
        user: u64,
    },
    /// Discover runners on the forge.
    DiscoverRunners,
    /// Update a runner.
    ///
    /// If not known, a new runner is stored.
    UpdateRunner {
        /// The ID of the runner.
        id: u64,
    },
    /// Discover pipeline schedules on a project.
    DiscoverPipelineSchedules {
        /// The ID of the project.
        project: u64,
    },
    /// Update a pipeline schedule.
    UpdatePipelineSchedule {
        /// The ID of the project.
        project: u64,
        /// The ID of the schedule.
        schedule: u64,
    },
    /// Discover merge requests on a project.
    DiscoverMergeRequests {
        /// The ID of the project.
        project: u64,
    },
    /// Update a merge request.
    ///
    /// If not known, a new merge request is stored.
    UpdateMergeRequest {
        /// The ID of the project.
        project: u64,
        /// The ID of the merge request.
        merge_request: u64,
    },
    /// Discover pipelines associated with a project.
    DiscoverPipelines {
        /// The ID of the project.
        project: u64,
    },
    /// Discover pipelines associated with a project.
    DiscoverMergeRequestPipelines {
        /// The ID of the project.
        project: u64,
        /// The ID of the merge request.
        merge_request: u64,
    },
    /// Update a pipeline.
    ///
    /// If not known, a new pipeline is stored.
    UpdatePipeline {
        /// The ID of the project.
        project: u64,
        /// The ID of the pipeline.
        pipeline: u64,
    },
    /// Discover environments on a project.
    DiscoverEnvironments {
        /// The ID of the project.
        project: u64,
    },
    /// Update an environment.
    ///
    /// If not known, a new environment is stored.
    UpdateEnvironment {
        /// The ID of the project.
        project: u64,
        /// The ID of the environment.
        environment: u64,
    },
    /// Discover deployments on a project.
    DiscoverDeployments {
        /// The ID of the project.
        project: u64,
    },
    /// Update a deployment.
    ///
    /// If not known, a new deployment is stored.
    UpdateDeployments {
        /// The ID of the project.
        project: u64,
        /// The ID of the deployment.
        deployment: u64,
    },
    /// Discover jobs on a pipeline.
    DiscoverJobs {
        /// The ID of the project.
        project: u64,
        /// The ID of the pipeline.
        pipeline: u64,
    },
    /// Update a job.
    ///
    /// If not known, a new job is stored.
    UpdateJob {
        /// The ID of the project.
        project: u64,
        /// The ID of the job.
        job: u64,
    },
    /// Update a job's artifacts.
    UpdateJobArtifacts {
        /// The ID of the project.
        project: u64,
        /// The ID of the job.
        job: u64,
    },
    /// Fetch from a job's artifacts.
    FetchJobArtifact {
        /// The ID of the project.
        project: u64,
        /// The ID of the job.
        job: u64,
        /// Which artifact to retrieve.
        artifact: String,
        /// If needed, the resource within the artifact.
        ///
        /// Used to grab a specific file from an archive rather than the full archive.
        sub_artifact: Option<String>,
    },
}

} // verus!
