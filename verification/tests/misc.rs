use ci_monitor::data::{Binary64, PipelineVariable, PipelineVariableType, PipelineVariables};
use ci_monitor::gitlab::tasks::pipeline_variables::{
    gitlab_variables, GitlabPipelineVariable, GitlabVariableType,
};
use ci_monitor::text::{clone_opt_string, clone_strings, joined, strip_last, strip_prefix};
use ci_monitor::time::Timestamp;

#[test]
fn timestamps_are_ordered_by_seconds_then_nanoseconds() {
    let a = Timestamp::new(1, 999_999_999);
    let b = Timestamp::new(2, 0);
    let c = Timestamp::new(2, 1);
    assert!(a.before(&b) && b.before(&c) && a.before(&c));
    assert!(!b.before(&a) && !b.before(&b));
    assert!(a.at_most(&a) && a.at_most(&b) && !c.at_most(&b));
    assert_eq!(a.latest(b), b);
    assert_eq!(c.latest(b), c);
    assert_eq!(b.latest(b), b);
    assert!(Timestamp::new(-5, 0).before(&Timestamp::new(-4, 0)));
}

#[test]
fn now_is_after_2020() {
    let now = Timestamp::now();
    assert!(Timestamp::new(1_577_836_800, 0).before(&now));
    assert!(now.nanos < 2_000_000_000);
    let later = Timestamp::now();
    assert!(now.at_most(&later));
}

#[test]
fn binary64_carries_its_bits() {
    let number = Binary64::from_bits(87.3f64.to_bits());
    assert_eq!(f64::from_bits(number.to_bits()), 87.3);
    assert_eq!(number, Binary64 { bits: 87.3f64.to_bits() });
}

#[test]
fn text_helpers() {
    assert_eq!(strip_prefix("custom(foo", "custom("), Some("foo"));
    assert_eq!(strip_prefix("custom", "custom("), None);
    assert_eq!(strip_prefix("abc", ""), Some("abc"));
    assert_eq!(strip_prefix("äbc", "ä"), Some("bc"));
    assert_eq!(strip_prefix("abc", "abd"), None);
    assert_eq!(strip_last("foo)", ')'), Some("foo"));
    assert_eq!(strip_last("foo", ')'), None);
    assert_eq!(strip_last("", ')'), None);
    assert_eq!(strip_last(")", ')'), Some(""));
    assert_eq!(joined("refs/", "heads"), "refs/heads");
    assert_eq!(clone_opt_string(&Some("a".to_string())), Some("a".to_string()));
    assert_eq!(clone_opt_string(&None), None);
    assert_eq!(clone_strings(&vec!["a".to_string(), "b".to_string()]), vec!["a", "b"]);
}

fn variable(value: &str) -> PipelineVariable {
    PipelineVariable::builder().value(value).type_(PipelineVariableType::String).build().unwrap()
}

#[test]
fn pipeline_variables_keep_one_variable_for_each_key() {
    let mut variables = PipelineVariables::new();
    assert_eq!(variables.len(), 0);
    variables.insert("b".to_string(), variable("1"));
    variables.insert("a".to_string(), variable("2"));
    variables.insert("b".to_string(), variable("3"));
    assert_eq!(variables.len(), 2);
    assert_eq!(variables.get("b").unwrap().value, "3");
    assert_eq!(variables.get("a").unwrap().value, "2");
    assert!(variables.get("c").is_none());
    let keys: Vec<&str> = variables.entries().iter().map(|pair| pair.0.as_str()).collect();
    assert_eq!(keys, vec!["b", "a"]);

    let collected = PipelineVariables::from_pairs(vec![
        ("x".to_string(), variable("1")),
        ("y".to_string(), variable("2")),
        ("x".to_string(), variable("3")),
    ]);
    assert_eq!(collected.len(), 2);
    assert_eq!(collected.get("x").unwrap().value, "3");
    assert_eq!(collected.clone().get("y").unwrap().value, "2");
    assert_eq!(PipelineVariables::from_pairs(Vec::new()).len(), 0);
}

#[test]
fn gitlab_variables_are_unprotected() {
    let variables = gitlab_variables(vec![
        GitlabPipelineVariable {
            variable_type: GitlabVariableType::File,
            key: "KEY".to_string(),
            value: "value".to_string(),
        },
        GitlabPipelineVariable {
            variable_type: GitlabVariableType::EnvironmentVariable,
            key: "OTHER".to_string(),
            value: "".to_string(),
        },
    ]);
    assert_eq!(variables.len(), 2);
    let variable = variables.get("KEY").unwrap();
    assert_eq!(variable.value, "value");
    assert_eq!(variable.type_, PipelineVariableType::File);
    assert!(!variable.protected);
    assert_eq!(variable.environment, None);
    assert_eq!(variables.get("OTHER").unwrap().type_, PipelineVariableType::String);
    assert_eq!(gitlab_variables(Vec::new()).len(), 0);
}
