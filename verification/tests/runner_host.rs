use ci_monitor::data::{RunnerHost, RunnerHostBuilderError};

#[test]
fn runner_host_name_is_required() {
    let err = RunnerHost::builder().unique_id(0).build().unwrap_err();
    if let RunnerHostBuilderError::UninitializedField(field) = err {
        assert_eq!(field, "name");
    } else {
        panic!("unexpected error (expected to be missing `{}`): {:?}", "name", err);
    }
}

#[test]
fn runner_host_unique_id_is_required() {
    let err = RunnerHost::builder().name("name").build().unwrap_err();
    if let RunnerHostBuilderError::UninitializedField(field) = err {
        assert_eq!(field, "unique_id");
    } else {
        panic!("unexpected error (expected to be missing `{}`): {:?}", "unique_id", err);
    }
}

#[test]
fn runner_host_sufficient_fields() {
    RunnerHost::builder()
        .name("name")
        .unique_id(0)
        .build()
        .unwrap();
}
