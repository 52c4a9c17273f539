use ci_monitor::data::{PipelineVariable, PipelineVariableBuilderError, PipelineVariableType};

#[test]
fn value_is_required() {
    let err = PipelineVariable::builder()
        .type_(PipelineVariableType::File)
        .build()
        .unwrap_err();
    if let PipelineVariableBuilderError::UninitializedField(field) = err {
        assert_eq!(field, "value");
    } else {
        panic!("unexpected error (expected to be missing `{}`): {:?}", "value", err);
    }
}

#[test]
fn type_is_required() {
    let err = PipelineVariable::builder()
        .value("value")
        .build()
        .unwrap_err();
    if let PipelineVariableBuilderError::UninitializedField(field) = err {
        assert_eq!(field, "type_");
    } else {
        panic!("unexpected error (expected to be missing `{}`): {:?}", "type_", err);
    }
}

#[test]
fn pipeline_variables_sufficient_fields() {
    PipelineVariable::builder()
        .value("value")
        .type_(PipelineVariableType::File)
        .build()
        .unwrap();
}
