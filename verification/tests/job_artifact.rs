use ci_monitor::data::{ArtifactKind, Instance, Job, JobArtifact, JobArtifactBuilderError, JobState, Pipeline, PipelineSource, PipelineStatus, Project, User};
use ci_monitor::time::Timestamp;
use ci_monitor::lookup::Lookup;
use ci_monitor::objects::vec::{VecIndex, VecLookup};

fn project(lookup: &mut VecLookup) -> Project {
    let instance = Instance::builder()
        .unique_id(0)
        .forge("forge")
        .url("url")
        .build()
        .unwrap();
    let idx = lookup.store(instance);

    Project::builder()
        .forge_id(0)
        .instance(idx)
        .build()
        .unwrap()
}

fn user(instance: VecIndex<Instance>) -> User {
    User::builder()
        .forge_id(0)
        .instance(instance)
        .build()
        .unwrap()
}

fn pipeline(
    project: VecIndex<Project>,
) -> Pipeline {
    Pipeline::builder()
        .project(project)
        .sha("0000000000000000000000000000000000000000")
        .source(PipelineSource::Schedule)
        .status(PipelineStatus::Created)
        .forge_id(0)
        .url("url")
        .created_at(Timestamp::now())
        .updated_at(Timestamp::now())
        .build()
        .unwrap()
}

fn job(
    user: VecIndex<User>,
    pipeline: VecIndex<Pipeline>,
) -> Job {
    Job::builder()
        .user(user)
        .state(JobState::Created)
        .created_at(Timestamp::now())
        .forge_id(0)
        .pipeline(pipeline)
        .build()
        .unwrap()
}

#[test]
fn kind_is_required() {
    let mut lookup = VecLookup::default();
    let proj = project(&mut lookup);
    let user = user(proj.instance.clone());
    let user_idx = lookup.store(user);
    let proj_idx = lookup.store(proj);
    let pipeline = pipeline(proj_idx.clone());
    let pipeline_idx = lookup.store(pipeline);
    let job = job(user_idx, pipeline_idx);
    let job_idx = lookup.store(job);

    let err = JobArtifact::builder()
        .name("build log")
        .size(1000)
        .unique_id(0)
        .job(job_idx)
        .build()
        .unwrap_err();
    if let JobArtifactBuilderError::UninitializedField(field) = err {
        assert_eq!(field, "kind");
    } else {
        panic!("unexpected error (expected to be missing `{}`): {:?}", "kind", err);
    }
}

#[test]
fn job_artifact_name_is_required() {
    let mut lookup = VecLookup::default();
    let proj = project(&mut lookup);
    let user = user(proj.instance.clone());
    let user_idx = lookup.store(user);
    let proj_idx = lookup.store(proj);
    let pipeline = pipeline(proj_idx.clone());
    let pipeline_idx = lookup.store(pipeline);
    let job = job(user_idx, pipeline_idx);
    let job_idx = lookup.store(job);

    let err = JobArtifact::builder()
        .kind(ArtifactKind::JobLog)
        .size(1000)
        .unique_id(0)
        .job(job_idx)
        .build()
        .unwrap_err();
    if let JobArtifactBuilderError::UninitializedField(field) = err {
        assert_eq!(field, "name");
    } else {
        panic!("unexpected error (expected to be missing `{}`): {:?}", "name", err);
    }
}

#[test]
fn size_is_required() {
    let mut lookup = VecLookup::default();
    let proj = project(&mut lookup);
    let user = user(proj.instance.clone());
    let user_idx = lookup.store(user);
    let proj_idx = lookup.store(proj);
    let pipeline = pipeline(proj_idx.clone());
    let pipeline_idx = lookup.store(pipeline);
    let job = job(user_idx, pipeline_idx);
    let job_idx = lookup.store(job);

    let err = JobArtifact::builder()
        .kind(ArtifactKind::JobLog)
        .name("build log")
        .unique_id(0)
        .job(job_idx)
        .build()
        .unwrap_err();
    if let JobArtifactBuilderError::UninitializedField(field) = err {
        assert_eq!(field, "size");
    } else {
        panic!("unexpected error (expected to be missing `{}`): {:?}", "size", err);
    }
}

#[test]
fn job_artifact_unique_id_is_required() {
    let mut lookup = VecLookup::default();
    let proj = project(&mut lookup);
    let user = user(proj.instance.clone());
    let user_idx = lookup.store(user);
    let proj_idx = lookup.store(proj);
    let pipeline = pipeline(proj_idx.clone());
    let pipeline_idx = lookup.store(pipeline);
    let job = job(user_idx, pipeline_idx);
    let job_idx = lookup.store(job);

    let err = JobArtifact::builder()
        .kind(ArtifactKind::JobLog)
        .name("build log")
        .size(1000)
        .job(job_idx)
        .build()
        .unwrap_err();
    if let JobArtifactBuilderError::UninitializedField(field) = err {
        assert_eq!(field, "unique_id");
    } else {
        panic!("unexpected error (expected to be missing `{}`): {:?}", "unique_id", err);
    }
}

#[test]
fn job_is_required() {
    let err = JobArtifact::builder()
        .kind(ArtifactKind::JobLog)
        .name("build log")
        .size(1000)
        .unique_id(0)
        .build()
        .unwrap_err();
    if let JobArtifactBuilderError::UninitializedField(field) = err {
        assert_eq!(field, "job");
    } else {
        panic!("unexpected error (expected to be missing `{}`): {:?}", "job", err);
    }
}

#[test]
fn job_artifact_sufficient_fields() {
    let mut lookup = VecLookup::default();
    let proj = project(&mut lookup);
    let user = user(proj.instance.clone());
    let user_idx = lookup.store(user);
    let proj_idx = lookup.store(proj);
    let pipeline = pipeline(proj_idx.clone());
    let pipeline_idx = lookup.store(pipeline);
    let job = job(user_idx, pipeline_idx);
    let job_idx = lookup.store(job);

    JobArtifact::builder()
        .kind(ArtifactKind::JobLog)
        .name("build log")
        .size(1000)
        .unique_id(0)
        .job(job_idx)
        .build()
        .unwrap();
}
