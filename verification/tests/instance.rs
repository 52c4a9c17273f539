use ci_monitor::data::instance::{Instance, InstanceBuilderError};

#[test]
fn instance_unique_id_is_required() {
    let err = Instance::builder().forge("forge").url("url").build().unwrap_err();
    if let InstanceBuilderError::UninitializedField(field) = err {
        assert_eq!(field, "unique_id");
    } else {
        panic!("unexpected error (expected to be missing `{}`): {:?}", "unique_id", err);
    }
}

#[test]
fn forge_is_required() {
    let err = Instance::builder().unique_id(0).url("url").build().unwrap_err();
    if let InstanceBuilderError::UninitializedField(field) = err {
        assert_eq!(field, "forge");
    } else {
        panic!("unexpected error (expected to be missing `{}`): {:?}", "forge", err);
    }
}

#[test]
fn instance_url_is_required() {
    let err = Instance::builder().unique_id(0).forge("forge").build().unwrap_err();
    if let InstanceBuilderError::UninitializedField(field) = err {
        assert_eq!(field, "url");
    } else {
        panic!("unexpected error (expected to be missing `{}`): {:?}", "url", err);
    }
}

#[test]
fn instance_sufficient_fields() {
    Instance::builder().unique_id(0).forge("forge").url("url").build().unwrap();
}
