use ci_monitor::data::{Instance, Job, JobBuilderError, JobState, Pipeline, PipelineSource, PipelineStatus, Project, User};
use ci_monitor::time::Timestamp;
use ci_monitor::lookup::Lookup;
use ci_monitor::objects::vec::{VecIndex, VecLookup};

fn project(lookup: &mut VecLookup) -> Project {
    let instance = Instance::builder()
        .unique_id(0)
        .forge("forge")
        .url("url")
        .build()
        .unwrap();
    let idx = lookup.store(instance);

    Project::builder()
        .forge_id(0)
        .instance(idx)
        .build()
        .unwrap()
}

fn user(instance: VecIndex<Instance>) -> User {
    User::builder()
        .forge_id(0)
        .instance(instance)
        .build()
        .unwrap()
}

fn pipeline(
    project: VecIndex<Project>,
    user: VecIndex<User>,
) -> Pipeline {
    Pipeline::builder()
        .project(project)
        .sha("0000000000000000000000000000000000000000")
        .source(PipelineSource::Schedule)
        .user(Some(user))
        .status(PipelineStatus::Created)
        .forge_id(0)
        .url("url")
        .created_at(Timestamp::now())
        .updated_at(Timestamp::now())
        .build()
        .unwrap()
}

#[test]
fn user_is_required() {
    let mut lookup = VecLookup::default();
    let proj = project(&mut lookup);
    let user = user(proj.instance.clone());
    let user_idx = lookup.store(user);
    let proj_idx = lookup.store(proj);
    let pipeline = pipeline(proj_idx.clone(), user_idx.clone());
    let pipeline_idx = lookup.store(pipeline);

    let err = Job::builder()
        .state(JobState::Created)
        .created_at(Timestamp::now())
        .forge_id(0)
        .pipeline(pipeline_idx)
        .build()
        .unwrap_err();
    if let JobBuilderError::UninitializedField(field) = err {
        assert_eq!(field, "user");
    } else {
        panic!("unexpected error (expected to be missing `{}`): {:?}", "user", err);
    }
}

#[test]
fn job_state_is_required() {
    let mut lookup = VecLookup::default();
    let proj = project(&mut lookup);
    let user = user(proj.instance.clone());
    let user_idx = lookup.store(user);
    let proj_idx = lookup.store(proj);
    let pipeline = pipeline(proj_idx.clone(), user_idx.clone());
    let pipeline_idx = lookup.store(pipeline);

    let err = Job::builder()
        .user(user_idx)
        .created_at(Timestamp::now())
        .forge_id(0)
        .pipeline(pipeline_idx)
        .build()
        .unwrap_err();
    if let JobBuilderError::UninitializedField(field) = err {
        assert_eq!(field, "state");
    } else {
        panic!("unexpected error (expected to be missing `{}`): {:?}", "state", err);
    }
}

#[test]
fn job_created_at_is_required() {
    let mut lookup = VecLookup::default();
    let proj = project(&mut lookup);
    let user = user(proj.instance.clone());
    let user_idx = lookup.store(user);
    let proj_idx = lookup.store(proj);
    let pipeline = pipeline(proj_idx.clone(), user_idx.clone());
    let pipeline_idx = lookup.store(pipeline);

    let err = Job::builder()
        .user(user_idx)
        .state(JobState::Created)
        .forge_id(0)
        .pipeline(pipeline_idx)
        .build()
        .unwrap_err();
    if let JobBuilderError::UninitializedField(field) = err {
        assert_eq!(field, "created_at");
    } else {
        panic!("unexpected error (expected to be missing `{}`): {:?}", "created_at", err);
    }
}

#[test]
fn job_forge_id_is_required() {
    let mut lookup = VecLookup::default();
    let proj = project(&mut lookup);
    let user = user(proj.instance.clone());
    let user_idx = lookup.store(user);
    let proj_idx = lookup.store(proj);
    let pipeline = pipeline(proj_idx.clone(), user_idx.clone());
    let pipeline_idx = lookup.store(pipeline);

    let err = Job::builder()
        .user(user_idx)
        .state(JobState::Created)
        .created_at(Timestamp::now())
        .pipeline(pipeline_idx)
        .build()
        .unwrap_err();
    if let JobBuilderError::UninitializedField(field) = err {
        assert_eq!(field, "forge_id");
    } else {
        panic!("unexpected error (expected to be missing `{}`): {:?}", "forge_id", err);
    }
}

#[test]
fn job_pipeline_is_required() {
    let mut lookup = VecLookup::default();
    let proj = project(&mut lookup);
    let user = user(proj.instance.clone());
    let user_idx = lookup.store(user);

    let err = Job::builder()
        .user(user_idx)
        .state(JobState::Created)
        .created_at(Timestamp::now())
        .forge_id(0)
        .build()
        .unwrap_err();
    if let JobBuilderError::UninitializedField(field) = err {
        assert_eq!(field, "pipeline");
    } else {
        panic!("unexpected error (expected to be missing `{}`): {:?}", "pipeline", err);
    }
}

#[test]
fn job_sufficient_fields() {
    let mut lookup = VecLookup::default();
    let proj = project(&mut lookup);
    let user = user(proj.instance.clone());
    let user_idx = lookup.store(user);
    let proj_idx = lookup.store(proj);
    let pipeline = pipeline(proj_idx.clone(), user_idx.clone());
    let pipeline_idx = lookup.store(pipeline);

    Job::builder()
        .user(user_idx)
        .state(JobState::Created)
        .created_at(Timestamp::now())
        .forge_id(0)
        .pipeline(pipeline_idx)
        .build()
        .unwrap();
}
