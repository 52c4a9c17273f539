use ci_monitor::data::{Instance, Runner, RunnerBuilderError, RunnerProtectionLevel, RunnerType};
use ci_monitor::lookup::Lookup;
use ci_monitor::objects::vec::{VecIndex, VecLookup};

fn instance() -> Instance {
    Instance::builder()
        .unique_id(0)
        .forge("forge")
        .url("url")
        .build()
        .unwrap()
}

#[test]
fn runner_forge_id_is_required() {
    let mut lookup = VecLookup::default();
    let inst = instance();
    let idx = lookup.store(inst);

    let err = Runner::builder()
        .instance(idx)
        .runner_type(RunnerType::Instance)
        .protection_level(RunnerProtectionLevel::Any)
        .build()
        .unwrap_err();
    if let RunnerBuilderError::UninitializedField(field) = err {
        assert_eq!(field, "forge_id");
    } else {
        panic!("unexpected error (expected to be missing `{}`): {:?}", "forge_id", err);
    }
}

#[test]
fn runner_instance_is_required() {
    let err = Runner::builder()
        .forge_id(0)
        .runner_type(RunnerType::Instance)
        .protection_level(RunnerProtectionLevel::Any)
        .build()
        .unwrap_err();
    if let RunnerBuilderError::UninitializedField(field) = err {
        assert_eq!(field, "instance");
    } else {
        panic!("unexpected error (expected to be missing `{}`): {:?}", "instance", err);
    }
}

#[test]
fn runner_type_is_required() {
    let mut lookup = VecLookup::default();
    let inst = instance();
    let idx = lookup.store(inst);

    let err = Runner::builder()
        .forge_id(0)
        .instance(idx)
        .protection_level(RunnerProtectionLevel::Any)
        .build()
        .unwrap_err();
    if let RunnerBuilderError::UninitializedField(field) = err {
        assert_eq!(field, "runner_type");
    } else {
        panic!("unexpected error (expected to be missing `{}`): {:?}", "runner_type", err);
    }
}

#[test]
fn protection_level_is_required() {
    let mut lookup = VecLookup::default();
    let inst = instance();
    let idx = lookup.store(inst);

    let err = Runner::builder()
        .forge_id(0)
        .instance(idx)
        .runner_type(RunnerType::Instance)
        .build()
        .unwrap_err();
    if let RunnerBuilderError::UninitializedField(field) = err {
        assert_eq!(field, "protection_level");
    } else {
        panic!("unexpected error (expected to be missing `{}`): {:?}", "protection_level", err);
    }
}

#[test]
fn runner_sufficient_fields() {
    let mut lookup = VecLookup::default();
    let inst = instance();
    let idx = lookup.store(inst);

    Runner::builder()
        .forge_id(0)
        .instance(idx)
        .runner_type(RunnerType::Instance)
        .protection_level(RunnerProtectionLevel::Any)
        .build()
        .unwrap();
}
