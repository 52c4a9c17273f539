use ci_monitor::data::{Instance, MergeRequest, MergeRequestBuilderError, MergeRequestStatus, Project, User};
use ci_monitor::lookup::Lookup;
use ci_monitor::objects::vec::{VecIndex, VecLookup};

fn project(lookup: &mut VecLookup) -> Project {
    let instance = Instance::builder()
        .unique_id(0)
        .forge("forge")
        .url("url")
        .build()
        .unwrap();
    let idx = lookup.store(instance);

    Project::builder()
        .forge_id(0)
        .instance(idx)
        .build()
        .unwrap()
}

fn user(instance: VecIndex<Instance>) -> User {
    User::builder()
        .forge_id(0)
        .instance(instance)
        .build()
        .unwrap()
}

#[test]
fn id_is_required() {
    let mut lookup = VecLookup::default();
    let proj = project(&mut lookup);
    let user = user(proj.instance.clone());
    let proj_idx = lookup.store(proj);
    let user_idx = lookup.store(user);

    let err = MergeRequest::builder()
        .source_project(proj_idx.clone())
        .target_project(proj_idx)
        .forge_id(0)
        .state(MergeRequestStatus::Open)
        .author(user_idx)
        .url("url")
        .build()
        .unwrap_err();
    if let MergeRequestBuilderError::UninitializedField(field) = err {
        assert_eq!(field, "id");
    } else {
        panic!("unexpected error (expected to be missing `{}`): {:?}", "id", err);
    }
}

#[test]
fn source_project_is_required() {
    let mut lookup = VecLookup::default();
    let proj = project(&mut lookup);
    let user = user(proj.instance.clone());
    let proj_idx = lookup.store(proj);
    let user_idx = lookup.store(user);

    let err = MergeRequest::builder()
        .id(0)
        .target_project(proj_idx)
        .forge_id(0)
        .state(MergeRequestStatus::Open)
        .author(user_idx)
        .url("url")
        .build()
        .unwrap_err();
    if let MergeRequestBuilderError::UninitializedField(field) = err {
        assert_eq!(field, "source_project");
    } else {
        panic!("unexpected error (expected to be missing `{}`): {:?}", "source_project", err);
    }
}

#[test]
fn target_project_is_required() {
    let mut lookup = VecLookup::default();
    let proj = project(&mut lookup);
    let user = user(proj.instance.clone());
    let proj_idx = lookup.store(proj);
    let user_idx = lookup.store(user);

    let err = MergeRequest::builder()
        .id(0)
        .source_project(proj_idx)
        .forge_id(0)
        .state(MergeRequestStatus::Open)
        .author(user_idx)
        .url("url")
        .build()
        .unwrap_err();
    if let MergeRequestBuilderError::UninitializedField(field) = err {
        assert_eq!(field, "target_project");
    } else {
        panic!("unexpected error (expected to be missing `{}`): {:?}", "target_project", err);
    }
}

#[test]
fn merge_request_forge_id_is_required() {
    let mut lookup = VecLookup::default();
    let proj = project(&mut lookup);
    let user = user(proj.instance.clone());
    let proj_idx = lookup.store(proj);
    let user_idx = lookup.store(user);

    let err = MergeRequest::builder()
        .id(0)
        .source_project(proj_idx.clone())
        .target_project(proj_idx)
        .state(MergeRequestStatus::Open)
        .author(user_idx)
        .url("url")
        .build()
        .unwrap_err();
    if let MergeRequestBuilderError::UninitializedField(field) = err {
        assert_eq!(field, "forge_id");
    } else {
        panic!("unexpected error (expected to be missing `{}`): {:?}", "forge_id", err);
    }
}

#[test]
fn merge_request_state_is_required() {
    let mut lookup = VecLookup::default();
    let proj = project(&mut lookup);
    let user = user(proj.instance.clone());
    let proj_idx = lookup.store(proj);
    let user_idx = lookup.store(user);

    let err = MergeRequest::builder()
        .id(0)
        .source_project(proj_idx.clone())
        .target_project(proj_idx)
        .forge_id(0)
        .author(user_idx)
        .url("url")
        .build()
        .unwrap_err();
    if let MergeRequestBuilderError::UninitializedField(field) = err {
        assert_eq!(field, "state");
    } else {
        panic!("unexpected error (expected to be missing `{}`): {:?}", "state", err);
    }
}

#[test]
fn author_is_required() {
    let mut lookup = VecLookup::default();
    let proj = project(&mut lookup);
    let proj_idx = lookup.store(proj);

    let err = MergeRequest::builder()
        .id(0)
        .source_project(proj_idx.clone())
        .target_project(proj_idx)
        .forge_id(0)
        .state(MergeRequestStatus::Open)
        .url("url")
        .build()
        .unwrap_err();
    if let MergeRequestBuilderError::UninitializedField(field) = err {
        assert_eq!(field, "author");
    } else {
        panic!("unexpected error (expected to be missing `{}`): {:?}", "author", err);
    }
}

#[test]
fn merge_request_url_is_required() {
    let mut lookup = VecLookup::default();
    let proj = project(&mut lookup);
    let user = user(proj.instance.clone());
    let proj_idx = lookup.store(proj);
    let user_idx = lookup.store(user);

    let err = MergeRequest::builder()
        .id(0)
        .source_project(proj_idx.clone())
        .target_project(proj_idx)
        .forge_id(0)
        .state(MergeRequestStatus::Open)
        .author(user_idx)
        .build()
        .unwrap_err();
    if let MergeRequestBuilderError::UninitializedField(field) = err {
        assert_eq!(field, "url");
    } else {
        panic!("unexpected error (expected to be missing `{}`): {:?}", "url", err);
    }
}

#[test]
fn merge_request_sufficient_fields() {
    let mut lookup = VecLookup::default();
    let proj = project(&mut lookup);
    let user = user(proj.instance.clone());
    let proj_idx = lookup.store(proj);
    let user_idx = lookup.store(user);

    MergeRequest::builder()
        .id(0)
        .source_project(proj_idx.clone())
        .target_project(proj_idx)
        .forge_id(0)
        .state(MergeRequestStatus::Open)
        .author(user_idx)
        .url("url")
        .build()
        .unwrap();
}
