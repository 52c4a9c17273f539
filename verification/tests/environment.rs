use ci_monitor::data::{Environment, EnvironmentBuilderError, EnvironmentState, EnvironmentTier, Instance, Project};
use ci_monitor::time::Timestamp;
use ci_monitor::lookup::Lookup;
use ci_monitor::objects::vec::{VecIndex, VecLookup};

fn project(lookup: &mut VecLookup) -> Project {
    let instance = Instance::builder()
        .unique_id(0)
        .forge("forge")
        .url("url")
        .build()
        .unwrap();
    let idx = lookup.store(instance);

    Project::builder()
        .forge_id(0)
        .instance(idx)
        .build()
        .unwrap()
}

#[test]
fn environment_name_is_required() {
    let mut lookup = VecLookup::default();
    let proj = project(&mut lookup);
    let proj_idx = lookup.store(proj);

    let err = Environment::builder()
        .state(EnvironmentState::Available)
        .tier(EnvironmentTier::Testing)
        .forge_id(0)
        .project(proj_idx)
        .created_at(Timestamp::now())
        .updated_at(Timestamp::now())
        .build()
        .unwrap_err();
    if let EnvironmentBuilderError::UninitializedField(field) = err {
        assert_eq!(field, "name");
    } else {
        panic!("unexpected error (expected to be missing `{}`): {:?}", "name", err);
    }
}

#[test]
fn environment_state_is_required() {
    let mut lookup = VecLookup::default();
    let proj = project(&mut lookup);
    let proj_idx = lookup.store(proj);

    let err = Environment::builder()
        .name("name")
        .tier(EnvironmentTier::Testing)
        .forge_id(0)
        .project(proj_idx)
        .created_at(Timestamp::now())
        .updated_at(Timestamp::now())
        .build()
        .unwrap_err();
    if let EnvironmentBuilderError::UninitializedField(field) = err {
        assert_eq!(field, "state");
    } else {
        panic!("unexpected error (expected to be missing `{}`): {:?}", "state", err);
    }
}

#[test]
fn tier_is_required() {
    let mut lookup = VecLookup::default();
    let proj = project(&mut lookup);
    let proj_idx = lookup.store(proj);

    let err = Environment::builder()
        .name("name")
        .state(EnvironmentState::Available)
        .forge_id(0)
        .project(proj_idx)
        .created_at(Timestamp::now())
        .updated_at(Timestamp::now())
        .build()
        .unwrap_err();
    if let EnvironmentBuilderError::UninitializedField(field) = err {
        assert_eq!(field, "tier");
    } else {
        panic!("unexpected error (expected to be missing `{}`): {:?}", "tier", err);
    }
}

#[test]
fn environment_forge_id_is_required() {
    let mut lookup = VecLookup::default();
    let proj = project(&mut lookup);
    let proj_idx = lookup.store(proj);

    let err = Environment::builder()
        .name("name")
        .state(EnvironmentState::Available)
        .tier(EnvironmentTier::Testing)
        .project(proj_idx)
        .created_at(Timestamp::now())
        .updated_at(Timestamp::now())
        .build()
        .unwrap_err();
    if let EnvironmentBuilderError::UninitializedField(field) = err {
        assert_eq!(field, "forge_id");
    } else {
        panic!("unexpected error (expected to be missing `{}`): {:?}", "forge_id", err);
    }
}

#[test]
fn environment_project_is_required() {
    let err = Environment::builder()
        .name("name")
        .state(EnvironmentState::Available)
        .tier(EnvironmentTier::Testing)
        .forge_id(0)
        .created_at(Timestamp::now())
        .updated_at(Timestamp::now())
        .build()
        .unwrap_err();
    if let EnvironmentBuilderError::UninitializedField(field) = err {
        assert_eq!(field, "project");
    } else {
        panic!("unexpected error (expected to be missing `{}`): {:?}", "project", err);
    }
}

#[test]
fn environment_created_at_is_required() {
    let mut lookup = VecLookup::default();
    let proj = project(&mut lookup);
    let proj_idx = lookup.store(proj);

    let err = Environment::builder()
        .name("name")
        .state(EnvironmentState::Available)
        .tier(EnvironmentTier::Testing)
        .forge_id(0)
        .project(proj_idx)
        .updated_at(Timestamp::now())
        .build()
        .unwrap_err();
    if let EnvironmentBuilderError::UninitializedField(field) = err {
        assert_eq!(field, "created_at");
    } else {
        panic!("unexpected error (expected to be missing `{}`): {:?}", "created_at", err);
    }
}

#[test]
fn environment_updated_at_is_required() {
    let mut lookup = VecLookup::default();
    let proj = project(&mut lookup);
    let proj_idx = lookup.store(proj);

    let err = Environment::builder()
        .name("name")
        .state(EnvironmentState::Available)
        .tier(EnvironmentTier::Testing)
        .forge_id(0)
        .project(proj_idx)
        .created_at(Timestamp::now())
        .build()
        .unwrap_err();
    if let EnvironmentBuilderError::UninitializedField(field) = err {
        assert_eq!(field, "updated_at");
    } else {
        panic!("unexpected error (expected to be missing `{}`): {:?}", "updated_at", err);
    }
}

#[test]
fn environment_sufficient_fields() {
    let mut lookup = VecLookup::default();
    let proj = project(&mut lookup);
    let proj_idx = lookup.store(proj);

    Environment::builder()
        .name("name")
        .state(EnvironmentState::Available)
        .tier(EnvironmentTier::Testing)
        .forge_id(0)
        .project(proj_idx)
        .created_at(Timestamp::now())
        .updated_at(Timestamp::now())
        .build()
        .unwrap();
}
