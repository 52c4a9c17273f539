use ci_monitor::data::{Instance, PipelineSchedule, PipelineScheduleBuilderError, Project, User};
use ci_monitor::time::Timestamp;
use ci_monitor::lookup::Lookup;
use ci_monitor::objects::vec::{VecIndex, VecLookup};

fn project(lookup: &mut VecLookup) -> Project {
    let instance = Instance::builder()
        .unique_id(0)
        .forge("forge")
        .url("url")
        .build()
        .unwrap();
    let idx = lookup.store(instance);

    Project::builder()
        .forge_id(0)
        .instance(idx)
        .build()
        .unwrap()
}

fn user(instance: VecIndex<Instance>) -> User {
    User::builder()
        .forge_id(0)
        .instance(instance)
        .build()
        .unwrap()
}

#[test]
fn pipeline_schedule_project_is_required() {
    let mut lookup = VecLookup::default();
    let proj = project(&mut lookup);
    let user = user(proj.instance.clone());
    let user_idx = lookup.store(user);

    let err = PipelineSchedule::builder()
        .ref_("main")
        .forge_id(0)
        .created_at(Timestamp::now())
        .updated_at(Timestamp::now())
        .owner(user_idx)
        .build()
        .unwrap_err();
    if let PipelineScheduleBuilderError::UninitializedField(field) = err {
        assert_eq!(field, "project");
    } else {
        panic!("unexpected error (expected to be missing `{}`): {:?}", "project", err);
    }
}

#[test]
fn ref_is_required() {
    let mut lookup = VecLookup::default();
    let proj = project(&mut lookup);
    let user = user(proj.instance.clone());
    let proj_idx = lookup.store(proj);
    let user_idx = lookup.store(user);

    let err = PipelineSchedule::builder()
        .project(proj_idx)
        .forge_id(0)
        .created_at(Timestamp::now())
        .updated_at(Timestamp::now())
        .owner(user_idx)
        .build()
        .unwrap_err();
    if let PipelineScheduleBuilderError::UninitializedField(field) = err {
        assert_eq!(field, "ref_");
    } else {
        panic!("unexpected error (expected to be missing `{}`): {:?}", "ref_", err);
    }
}

#[test]
fn pipeline_schedule_forge_id_is_required() {
    let mut lookup = VecLookup::default();
    let proj = project(&mut lookup);
    let user = user(proj.instance.clone());
    let proj_idx = lookup.store(proj);
    let user_idx = lookup.store(user);

    let err = PipelineSchedule::builder()
        .project(proj_idx)
        .ref_("main")
        .created_at(Timestamp::now())
        .updated_at(Timestamp::now())
        .owner(user_idx)
        .build()
        .unwrap_err();
    if let PipelineScheduleBuilderError::UninitializedField(field) = err {
        assert_eq!(field, "forge_id");
    } else {
        panic!("unexpected error (expected to be missing `{}`): {:?}", "forge_id", err);
    }
}

#[test]
fn pipeline_schedule_created_at_is_required() {
    let mut lookup = VecLookup::default();
    let proj = project(&mut lookup);
    let user = user(proj.instance.clone());
    let proj_idx = lookup.store(proj);
    let user_idx = lookup.store(user);

    let err = PipelineSchedule::builder()
        .project(proj_idx)
        .ref_("main")
        .forge_id(0)
        .updated_at(Timestamp::now())
        .owner(user_idx)
        .build()
        .unwrap_err();
    if let PipelineScheduleBuilderError::UninitializedField(field) = err {
        assert_eq!(field, "created_at");
    } else {
        panic!("unexpected error (expected to be missing `{}`): {:?}", "created_at", err);
    }
}

#[test]
fn pipeline_schedule_updated_at_is_required() {
    let mut lookup = VecLookup::default();
    let proj = project(&mut lookup);
    let user = user(proj.instance.clone());
    let proj_idx = lookup.store(proj);
    let user_idx = lookup.store(user);

    let err = PipelineSchedule::builder()
        .project(proj_idx)
        .ref_("main")
        .forge_id(0)
        .created_at(Timestamp::now())
        .owner(user_idx)
        .build()
        .unwrap_err();
    if let PipelineScheduleBuilderError::UninitializedField(field) = err {
        assert_eq!(field, "updated_at");
    } else {
        panic!("unexpected error (expected to be missing `{}`): {:?}", "updated_at", err);
    }
}

#[test]
fn owner_is_required() {
    let mut lookup = VecLookup::default();
    let proj = project(&mut lookup);
    let proj_idx = lookup.store(proj);

    let err = PipelineSchedule::builder()
        .project(proj_idx)
        .ref_("main")
        .forge_id(0)
        .created_at(Timestamp::now())
        .updated_at(Timestamp::now())
        .build()
        .unwrap_err();
    if let PipelineScheduleBuilderError::UninitializedField(field) = err {
        assert_eq!(field, "owner");
    } else {
        panic!("unexpected error (expected to be missing `{}`): {:?}", "owner", err);
    }
}

#[test]
fn pipeline_schedule_sufficient_fields() {
    let mut lookup = VecLookup::default();
    let proj = project(&mut lookup);
    let user = user(proj.instance.clone());
    let proj_idx = lookup.store(proj);
    let user_idx = lookup.store(user);

    PipelineSchedule::builder()
        .project(proj_idx)
        .ref_("main")
        .forge_id(0)
        .created_at(Timestamp::now())
        .updated_at(Timestamp::now())
        .owner(user_idx)
        .build()
        .unwrap();
}
