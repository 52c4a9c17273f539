//! What a store offers to the GitLab forge.

use vstd::prelude::*;
use crate::data::deployment::Deployment;
use crate::data::environment::Environment;
use crate::data::instance::Instance;
use crate::data::job::Job;
use crate::data::job_artifact::JobArtifact;
use crate::data::merge_request::MergeRequest;
use crate::data::pipeline::Pipeline;
use crate::data::pipeline_schedule::PipelineSchedule;
use crate::data::project::Project;
use crate::data::runner::Runner;
use crate::data::runner_host::RunnerHost;
use crate::data::user::User;
use crate::lookup::{DiscoverableLookup, Lookup};
use crate::objects::vec::VecLookup;

verus! {

/// A store that the GitLab forge can reconcile into: every entity is looked
/// up by its index, and those that other entities refer to are found by
/// their identity key.
pub trait GitlabLookup:
    Lookup<Deployment>
    + Lookup<Environment>
    + Lookup<Job>
    + Lookup<JobArtifact>
    + Lookup<MergeRequest>
    + Lookup<Pipeline>
    + Lookup<PipelineSchedule>
    + DiscoverableLookup<Project>
    + DiscoverableLookup<Runner>
    + DiscoverableLookup<RunnerHost>
    + DiscoverableLookup<User>
    + DiscoverableLookup<Instance>
{
}

impl GitlabLookup for VecLookup {
}

} // verus!
