use ci_monitor::data::{Instance, Pipeline, PipelineBuilderError, PipelineSource, PipelineStatus, Project};
use ci_monitor::time::Timestamp;
use ci_monitor::lookup::Lookup;
use ci_monitor::objects::vec::{VecIndex, VecLookup};

fn project(lookup: &mut VecLookup) -> Project {
    let instance = Instance::builder()
        .unique_id(0)
        .forge("forge")
        .url("url")
        .build()
        .unwrap();
    let idx = lookup.store(instance);

    Project::builder()
        .forge_id(0)
        .instance(idx)
        .build()
        .unwrap()
}

#[test]
fn pipeline_project_is_required() {
    let err = Pipeline::builder()
        .sha("0000000000000000000000000000000000000000")
        .source(PipelineSource::Schedule)
        .status(PipelineStatus::Created)
        .forge_id(0)
        .url("url")
        .created_at(Timestamp::now())
        .updated_at(Timestamp::now())
        .build()
        .unwrap_err();
    if let PipelineBuilderError::UninitializedField(field) = err {
        assert_eq!(field, "project");
    } else {
        panic!("unexpected error (expected to be missing `{}`): {:?}", "project", err);
    }
}

#[test]
fn sha_is_required() {
    let mut lookup = VecLookup::default();
    let proj = project(&mut lookup);
    let proj_idx = lookup.store(proj);

    let err = Pipeline::builder()
        .project(proj_idx)
        .source(PipelineSource::Schedule)
        .status(PipelineStatus::Created)
        .forge_id(0)
        .url("url")
        .created_at(Timestamp::now())
        .updated_at(Timestamp::now())
        .build()
        .unwrap_err();
    if let PipelineBuilderError::UninitializedField(field) = err {
        assert_eq!(field, "sha");
    } else {
        panic!("unexpected error (expected to be missing `{}`): {:?}", "sha", err);
    }
}

#[test]
fn source_is_required() {
    let mut lookup = VecLookup::default();
    let proj = project(&mut lookup);
    let proj_idx = lookup.store(proj);

    let err = Pipeline::builder()
        .project(proj_idx)
        .sha("0000000000000000000000000000000000000000")
        .status(PipelineStatus::Created)
        .forge_id(0)
        .url("url")
        .created_at(Timestamp::now())
        .updated_at(Timestamp::now())
        .build()
        .unwrap_err();
    if let PipelineBuilderError::UninitializedField(field) = err {
        assert_eq!(field, "source");
    } else {
        panic!("unexpected error (expected to be missing `{}`): {:?}", "source", err);
    }
}

#[test]
fn pipeline_status_is_required() {
    let mut lookup = VecLookup::default();
    let proj = project(&mut lookup);
    let proj_idx = lookup.store(proj);

    let err = Pipeline::builder()
        .project(proj_idx)
        .sha("0000000000000000000000000000000000000000")
        .source(PipelineSource::Schedule)
        .forge_id(0)
        .url("url")
        .created_at(Timestamp::now())
        .updated_at(Timestamp::now())
        .build()
        .unwrap_err();
    if let PipelineBuilderError::UninitializedField(field) = err {
        assert_eq!(field, "status");
    } else {
        panic!("unexpected error (expected to be missing `{}`): {:?}", "status", err);
    }
}

#[test]
fn pipeline_forge_id_is_required() {
    let mut lookup = VecLookup::default();
    let proj = project(&mut lookup);
    let proj_idx = lookup.store(proj);

    let err = Pipeline::builder()
        .project(proj_idx)
        .sha("0000000000000000000000000000000000000000")
        .source(PipelineSource::Schedule)
        .status(PipelineStatus::Created)
        .url("url")
        .created_at(Timestamp::now())
        .updated_at(Timestamp::now())
        .build()
        .unwrap_err();
    if let PipelineBuilderError::UninitializedField(field) = err {
        assert_eq!(field, "forge_id");
    } else {
        panic!("unexpected error (expected to be missing `{}`): {:?}", "forge_id", err);
    }
}

#[test]
fn pipeline_url_is_required() {
    let mut lookup = VecLookup::default();
    let proj = project(&mut lookup);
    let proj_idx = lookup.store(proj);

    let err = Pipeline::builder()
        .project(proj_idx)
        .sha("0000000000000000000000000000000000000000")
        .source(PipelineSource::Schedule)
        .status(PipelineStatus::Created)
        .forge_id(0)
        .created_at(Timestamp::now())
        .updated_at(Timestamp::now())
        .build()
        .unwrap_err();
    if let PipelineBuilderError::UninitializedField(field) = err {
        assert_eq!(field, "url");
    } else {
        panic!("unexpected error (expected to be missing `{}`): {:?}", "url", err);
    }
}

#[test]
fn pipeline_created_at_is_required() {
    let mut lookup = VecLookup::default();
    let proj = project(&mut lookup);
    let proj_idx = lookup.store(proj);

    let err = Pipeline::builder()
        .project(proj_idx)
        .sha("0000000000000000000000000000000000000000")
        .source(PipelineSource::Schedule)
        .status(PipelineStatus::Created)
        .forge_id(0)
        .url("url")
        .updated_at(Timestamp::now())
        .build()
        .unwrap_err();
    if let PipelineBuilderError::UninitializedField(field) = err {
        assert_eq!(field, "created_at");
    } else {
        panic!("unexpected error (expected to be missing `{}`): {:?}", "created_at", err);
    }
}

#[test]
fn pipeline_updated_at_is_required() {
    let mut lookup = VecLookup::default();
    let proj = project(&mut lookup);
    let proj_idx = lookup.store(proj);

    let err = Pipeline::builder()
        .project(proj_idx)
        .sha("0000000000000000000000000000000000000000")
        .source(PipelineSource::Schedule)
        .status(PipelineStatus::Created)
        .forge_id(0)
        .url("url")
        .created_at(Timestamp::now())
        .build()
        .unwrap_err();
    if let PipelineBuilderError::UninitializedField(field) = err {
        assert_eq!(field, "updated_at");
    } else {
        panic!("unexpected error (expected to be missing `{}`): {:?}", "updated_at", err);
    }
}

#[test]
fn pipeline_sufficient_fields() {
    let mut lookup = VecLookup::default();
    let proj = project(&mut lookup);
    let proj_idx = lookup.store(proj);

    Pipeline::builder()
        .project(proj_idx)
        .sha("0000000000000000000000000000000000000000")
        .source(PipelineSource::Schedule)
        .status(PipelineStatus::Created)
        .forge_id(0)
        .url("url")
        .created_at(Timestamp::now())
        .updated_at(Timestamp::now())
        .build()
        .unwrap();
}
