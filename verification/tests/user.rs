use ci_monitor::data::{Instance, User, UserBuilderError};
use ci_monitor::lookup::Lookup;
use ci_monitor::objects::vec::{VecIndex, VecLookup};

fn instance() -> Instance {
    Instance::builder()
        .unique_id(0)
        .forge("forge")
        .url("url")
        .build()
        .unwrap()
}

#[test]
fn user_forge_id_is_required() {
    let mut lookup = VecLookup::default();
    let inst = instance();
    let idx = lookup.store(inst);

    let err = User::builder()
        .instance(idx)
        .build()
        .unwrap_err();
    if let UserBuilderError::UninitializedField(field) = err {
        assert_eq!(field, "forge_id");
    } else {
        panic!("unexpected error (expected to be missing `{}`): {:?}", "forge_id", err);
    }
}

#[test]
fn user_instance_is_required() {
    let err = User::builder()
        .forge_id(0)
        .build()
        .unwrap_err();
    if let UserBuilderError::UninitializedField(field) = err {
        assert_eq!(field, "instance");
    } else {
        panic!("unexpected error (expected to be missing `{}`): {:?}", "instance", err);
    }
}

#[test]
fn user_sufficient_fields() {
    let mut lookup = VecLookup::default();
    let inst = instance();
    let idx = lookup.store(inst);

    User::builder()
        .forge_id(0)
        .instance(idx)
        .build()
        .unwrap();
}
