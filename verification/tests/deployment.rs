use ci_monitor::data::{Deployment, DeploymentBuilderError, DeploymentStatus, Environment, EnvironmentState, EnvironmentTier, Instance, Pipeline, PipelineSource, PipelineStatus, Project, User};
use ci_monitor::time::Timestamp;
use ci_monitor::lookup::Lookup;
use ci_monitor::objects::vec::{VecIndex, VecLookup};

fn project(lookup: &mut VecLookup) -> Project {
    let instance = Instance::builder()
        .unique_id(0)
        .forge("forge")
        .url("url")
        .build()
        .unwrap();
    let idx = lookup.store(instance);

    Project::builder()
        .forge_id(0)
        .instance(idx)
        .build()
        .unwrap()
}

fn user(instance: VecIndex<Instance>) -> User {
    User::builder()
        .forge_id(0)
        .instance(instance)
        .build()
        .unwrap()
}

fn pipeline(
    project: VecIndex<Project>,
    user: VecIndex<User>,
) -> Pipeline {
    Pipeline::builder()
        .project(project)
        .sha("0000000000000000000000000000000000000000")
        .source(PipelineSource::Schedule)
        .user(Some(user))
        .status(PipelineStatus::Created)
        .forge_id(0)
        .url("url")
        .created_at(Timestamp::now())
        .updated_at(Timestamp::now())
        .build()
        .unwrap()
}

fn environment(
    project: VecIndex<Project>,
) -> Environment {
    Environment::builder()
        .name("name")
        .state(EnvironmentState::Available)
        .tier(EnvironmentTier::Testing)
        .forge_id(0)
        .project(project)
        .created_at(Timestamp::now())
        .updated_at(Timestamp::now())
        .build()
        .unwrap()
}

#[test]
fn deployment_pipeline_is_required() {
    let mut lookup = VecLookup::default();
    let proj = project(&mut lookup);
    let proj_idx = lookup.store(proj);
    let environment = environment(proj_idx);
    let environment_idx = lookup.store(environment);

    let err = Deployment::builder()
        .environment(environment_idx)
        .forge_id(0)
        .created_at(Timestamp::now())
        .updated_at(Timestamp::now())
        .status(DeploymentStatus::Created)
        .build()
        .unwrap_err();
    if let DeploymentBuilderError::UninitializedField(field) = err {
        assert_eq!(field, "pipeline");
    } else {
        panic!("unexpected error (expected to be missing `{}`): {:?}", "pipeline", err);
    }
}

#[test]
fn environment_is_required() {
    let mut lookup = VecLookup::default();
    let proj = project(&mut lookup);
    let user = user(proj.instance.clone());
    let user_idx = lookup.store(user);
    let proj_idx = lookup.store(proj);
    let pipeline = pipeline(proj_idx.clone(), user_idx);
    let pipeline_idx = lookup.store(pipeline);

    let err = Deployment::builder()
        .pipeline(pipeline_idx)
        .forge_id(0)
        .created_at(Timestamp::now())
        .updated_at(Timestamp::now())
        .status(DeploymentStatus::Created)
        .build()
        .unwrap_err();
    if let DeploymentBuilderError::UninitializedField(field) = err {
        assert_eq!(field, "environment");
    } else {
        panic!("unexpected error (expected to be missing `{}`): {:?}", "environment", err);
    }
}

#[test]
fn deployment_forge_id_is_required() {
    let mut lookup = VecLookup::default();
    let proj = project(&mut lookup);
    let user = user(proj.instance.clone());
    let user_idx = lookup.store(user);
    let proj_idx = lookup.store(proj);
    let pipeline = pipeline(proj_idx.clone(), user_idx);
    let environment = environment(proj_idx);
    let pipeline_idx = lookup.store(pipeline);
    let environment_idx = lookup.store(environment);

    let err = Deployment::builder()
        .pipeline(pipeline_idx)
        .environment(environment_idx)
        .created_at(Timestamp::now())
        .updated_at(Timestamp::now())
        .status(DeploymentStatus::Created)
        .build()
        .unwrap_err();
    if let DeploymentBuilderError::UninitializedField(field) = err {
        assert_eq!(field, "forge_id");
    } else {
        panic!("unexpected error (expected to be missing `{}`): {:?}", "forge_id", err);
    }
}

#[test]
fn deployment_created_at_is_required() {
    let mut lookup = VecLookup::default();
    let proj = project(&mut lookup);
    let user = user(proj.instance.clone());
    let user_idx = lookup.store(user);
    let proj_idx = lookup.store(proj);
    let pipeline = pipeline(proj_idx.clone(), user_idx);
    let environment = environment(proj_idx);
    let pipeline_idx = lookup.store(pipeline);
    let environment_idx = lookup.store(environment);

    let err = Deployment::builder()
        .pipeline(pipeline_idx)
        .environment(environment_idx)
        .forge_id(0)
        .updated_at(Timestamp::now())
        .status(DeploymentStatus::Created)
        .build()
        .unwrap_err();
    if let DeploymentBuilderError::UninitializedField(field) = err {
        assert_eq!(field, "created_at");
    } else {
        panic!("unexpected error (expected to be missing `{}`): {:?}", "created_at", err);
    }
}

#[test]
fn deployment_updated_at_is_required() {
    let mut lookup = VecLookup::default();
    let proj = project(&mut lookup);
    let user = user(proj.instance.clone());
    let user_idx = lookup.store(user);
    let proj_idx = lookup.store(proj);
    let pipeline = pipeline(proj_idx.clone(), user_idx);
    let environment = environment(proj_idx);
    let pipeline_idx = lookup.store(pipeline);
    let environment_idx = lookup.store(environment);

    let err = Deployment::builder()
        .pipeline(pipeline_idx)
        .environment(environment_idx)
        .forge_id(0)
        .created_at(Timestamp::now())
        .status(DeploymentStatus::Created)
        .build()
        .unwrap_err();
    if let DeploymentBuilderError::UninitializedField(field) = err {
        assert_eq!(field, "updated_at");
    } else {
        panic!("unexpected error (expected to be missing `{}`): {:?}", "updated_at", err);
    }
}

#[test]
fn deployment_status_is_required() {
    let mut lookup = VecLookup::default();
    let proj = project(&mut lookup);
    let user = user(proj.instance.clone());
    let user_idx = lookup.store(user);
    let proj_idx = lookup.store(proj);
    let pipeline = pipeline(proj_idx.clone(), user_idx);
    let environment = environment(proj_idx);
    let pipeline_idx = lookup.store(pipeline);
    let environment_idx = lookup.store(environment);

    let err = Deployment::builder()
        .pipeline(pipeline_idx)
        .environment(environment_idx)
        .forge_id(0)
        .created_at(Timestamp::now())
        .updated_at(Timestamp::now())
        .build()
        .unwrap_err();
    if let DeploymentBuilderError::UninitializedField(field) = err {
        assert_eq!(field, "status");
    } else {
        panic!("unexpected error (expected to be missing `{}`): {:?}", "status", err);
    }
}

#[test]
fn deployment_sufficient_fields() {
    let mut lookup = VecLookup::default();
    let proj = project(&mut lookup);
    let user = user(proj.instance.clone());
    let user_idx = lookup.store(user);
    let proj_idx = lookup.store(proj);
    let pipeline = pipeline(proj_idx.clone(), user_idx);
    let environment = environment(proj_idx);
    let pipeline_idx = lookup.store(pipeline);
    let environment_idx = lookup.store(environment);

    Deployment::builder()
        .pipeline(pipeline_idx)
        .environment(environment_idx)
        .forge_id(0)
        .created_at(Timestamp::now())
        .updated_at(Timestamp::now())
        .status(DeploymentStatus::Created)
        .build()
        .unwrap();
}
