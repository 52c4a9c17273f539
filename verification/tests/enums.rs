use ci_monitor::data::job_artifact::ArtifactState;
use ci_monitor::data::{
    ContentHash, DeploymentStatus, EnvironmentState, EnvironmentTier, JobState, MergeRequestStatus,
    PipelineSource, PipelineStatus, PipelineVariableType, RunnerProtectionLevel, RunnerType,
};
use ci_monitor::gitlab::tasks::job::GitlabJobStatus;
use ci_monitor::gitlab::tasks::merge_request::GitlabMergeState;
use ci_monitor::gitlab::tasks::pipeline::{GitlabPipelineSource, GitlabPipelineStatus};
use ci_monitor::gitlab::tasks::pipeline_variables::GitlabVariableType;
use ci_monitor::gitlab::tasks::project::AccessLevel;
use ci_monitor::gitlab::tasks::runner::{GitlabRunnerAccessLevel, GitlabRunnerType};

#[test]
fn content_hash_names() {
    assert_eq!(ContentHash::Sha256.name(), "sha256");
    assert_eq!(ContentHash::Sha512.name(), "sha512");
    assert_eq!(ContentHash::from_name("sha256"), Some(ContentHash::Sha256));
    assert_eq!(ContentHash::from_name("sha512"), Some(ContentHash::Sha512));
    assert_eq!(ContentHash::from_name("md5"), None);
    assert_eq!(ContentHash::from_name(""), None);
}

#[test]
fn deployment_status_names() {
    let table = [
        (DeploymentStatus::Created, "created"),
        (DeploymentStatus::Running, "running"),
        (DeploymentStatus::Success, "success"),
        (DeploymentStatus::Failed, "failed"),
        (DeploymentStatus::Canceled, "canceled"),
        (DeploymentStatus::Blocked, "blocked"),
    ];
    for (value, name) in table {
        assert_eq!(value.name(), name);
        assert_eq!(DeploymentStatus::from_name(name), Some(value));
    }
    assert_eq!(DeploymentStatus::from_name("cancelled"), None);
}

#[test]
fn environment_names() {
    let states = [
        (EnvironmentState::Available, "available"),
        (EnvironmentState::Stopping, "stopping"),
        (EnvironmentState::Stopped, "stopped"),
    ];
    for (value, name) in states {
        assert_eq!(value.name(), name);
        assert_eq!(EnvironmentState::from_name(name), Some(value));
    }
    let tiers = [
        (EnvironmentTier::Production, "production"),
        (EnvironmentTier::Staging, "staging"),
        (EnvironmentTier::Testing, "testing"),
        (EnvironmentTier::Development, "development"),
        (EnvironmentTier::Other, "other"),
    ];
    for (value, name) in tiers {
        assert_eq!(value.name(), name);
        assert_eq!(EnvironmentTier::from_name(name), Some(value));
    }
    assert_eq!(EnvironmentState::from_name("production"), None);
    assert_eq!(EnvironmentTier::from_name("available"), None);
}

#[test]
fn job_state_names() {
    let table = [
        (JobState::Created, "created"),
        (JobState::Pending, "pending"),
        (JobState::Running, "running"),
        (JobState::Failed, "failed"),
        (JobState::Success, "success"),
        (JobState::Canceled, "canceled"),
        (JobState::Skipped, "skipped"),
        (JobState::WaitingForResource, "waiting_for_resource"),
        (JobState::Manual, "manual"),
        (JobState::Scheduled, "scheduled"),
    ];
    for (value, name) in table {
        assert_eq!(value.name(), name);
        assert_eq!(JobState::from_name(name), Some(value));
    }
    assert_eq!(JobState::from_name("preparing"), None);
}

#[test]
fn merge_request_status_names() {
    let table = [
        (MergeRequestStatus::Open, "open"),
        (MergeRequestStatus::Closed, "closed"),
        (MergeRequestStatus::Merged, "merged"),
    ];
    for (value, name) in table {
        assert_eq!(value.name(), name);
        assert_eq!(MergeRequestStatus::from_name(name), Some(value));
    }
    assert_eq!(MergeRequestStatus::from_name("opened"), None);
}

#[test]
fn pipeline_source_names() {
    let table = [
        (PipelineSource::Api, "api"),
        (PipelineSource::Chat, "chat"),
        (PipelineSource::External, "external"),
        (PipelineSource::ExternalPullRequestEvent, "external_pull_request_event"),
        (PipelineSource::MergeRequestEvent, "merge_request_event"),
        (PipelineSource::OnDemandDastScan, "on_demand_dast_scan"),
        (PipelineSource::OnDemandDastValidation, "on_demand_dast_validation"),
        (PipelineSource::ParentPipeline, "parent_pipeline"),
        (PipelineSource::Pipeline, "pipeline"),
        (PipelineSource::Push, "push"),
        (PipelineSource::Schedule, "schedule"),
        (PipelineSource::SecurityOrchestrationPolicy, "security_orchestration_policy"),
        (PipelineSource::Trigger, "trigger"),
        (PipelineSource::Web, "web"),
        (PipelineSource::WebIde, "web_ide"),
    ];
    for (value, name) in table {
        assert_eq!(value.name(), name);
        assert_eq!(PipelineSource::from_name(name), Some(value));
    }
    assert_eq!(PipelineSource::from_name("ondemand_dast_scan"), None);
}

#[test]
fn pipeline_status_names() {
    let table = [
        (PipelineStatus::Created, "created"),
        (PipelineStatus::WaitingForResource, "waiting_for_resource"),
        (PipelineStatus::Preparing, "preparing"),
        (PipelineStatus::Pending, "pending"),
        (PipelineStatus::Running, "running"),
        (PipelineStatus::Success, "success"),
        (PipelineStatus::Failed, "failed"),
        (PipelineStatus::Canceled, "canceled"),
        (PipelineStatus::Skipped, "skipped"),
        (PipelineStatus::Manual, "manual"),
        (PipelineStatus::Scheduled, "scheduled"),
        (PipelineStatus::Completed, "completed"),
        (PipelineStatus::Neutral, "neutral"),
        (PipelineStatus::Stale, "stale"),
        (PipelineStatus::StartupFailure, "startup_failure"),
        (PipelineStatus::TimedOut, "timed_out"),
    ];
    for (value, name) in table {
        assert_eq!(value.name(), name);
        assert_eq!(PipelineStatus::from_name(name), Some(value));
    }
    assert_eq!(PipelineStatus::from_name("timedout"), None);
}

#[test]
fn remaining_names() {
    assert_eq!(PipelineVariableType::File.name(), "file");
    assert_eq!(PipelineVariableType::String.name(), "string");
    assert_eq!(PipelineVariableType::from_name("file"), Some(PipelineVariableType::File));
    assert_eq!(PipelineVariableType::from_name("string"), Some(PipelineVariableType::String));
    assert_eq!(PipelineVariableType::from_name("env_var"), None);
    let states = [
        (ArtifactState::Unknown, "unknown"),
        (ArtifactState::Pending, "pending"),
        (ArtifactState::Expired, "expired"),
        (ArtifactState::Present, "present"),
        (ArtifactState::Stored, "stored"),
    ];
    for (value, name) in states {
        assert_eq!(value.name(), name);
        assert_eq!(ArtifactState::from_name(name), Some(value));
    }
    for value in [RunnerType::Instance, RunnerType::Group, RunnerType::Project] {
        assert_eq!(RunnerType::from_name(value.name()), Some(value));
    }
    for value in [RunnerProtectionLevel::Protected, RunnerProtectionLevel::Any] {
        assert_eq!(RunnerProtectionLevel::from_name(value.name()), Some(value));
    }
}

#[test]
fn merge_state_coercion() {
    let table = [
        ("opened", MergeRequestStatus::Open),
        ("reopened", MergeRequestStatus::Open),
        ("locked", MergeRequestStatus::Open),
        ("closed", MergeRequestStatus::Closed),
        ("merged", MergeRequestStatus::Merged),
    ];
    for (name, status) in table {
        assert_eq!(GitlabMergeState::from_name(name).unwrap().into_model(), status);
    }
    assert_eq!(GitlabMergeState::from_name("open"), None);
}

#[test]
fn runner_wire_names() {
    assert_eq!(
        GitlabRunnerType::from_name("instance_type").unwrap().into_model(),
        RunnerType::Instance
    );
    assert_eq!(GitlabRunnerType::from_name("group_type").unwrap().into_model(), RunnerType::Group);
    assert_eq!(
        GitlabRunnerType::from_name("project_type").unwrap().into_model(),
        RunnerType::Project
    );
    assert_eq!(GitlabRunnerType::from_name("instance"), None);
    assert_eq!(
        GitlabRunnerAccessLevel::from_name("ref_protected").unwrap().into_model(),
        RunnerProtectionLevel::Protected
    );
    assert_eq!(
        GitlabRunnerAccessLevel::from_name("not_protected").unwrap().into_model(),
        RunnerProtectionLevel::Any
    );
    assert_eq!(GitlabRunnerAccessLevel::from_name("protected"), None);
}

#[test]
fn variable_type_wire_names() {
    assert_eq!(
        GitlabVariableType::from_name("env_var").unwrap().into_model(),
        PipelineVariableType::String
    );
    assert_eq!(
        GitlabVariableType::from_name("file").unwrap().into_model(),
        PipelineVariableType::File
    );
    assert_eq!(GitlabVariableType::from_name("string"), None);
}

#[test]
fn pipeline_wire_names() {
    assert_eq!(
        GitlabPipelineSource::from_name("ondemand_dast_scan").unwrap().into_model(),
        PipelineSource::OnDemandDastScan
    );
    assert_eq!(
        GitlabPipelineSource::from_name("ondemand_dast_validation").unwrap().into_model(),
        PipelineSource::OnDemandDastValidation
    );
    assert_eq!(
        GitlabPipelineSource::from_name("web_ide").unwrap().into_model(),
        PipelineSource::WebIde
    );
    assert_eq!(GitlabPipelineSource::from_name("on_demand_dast_scan"), None);
    assert_eq!(
        GitlabPipelineStatus::from_name("waiting_for_resource").unwrap().into_model(),
        PipelineStatus::WaitingForResource
    );
    assert_eq!(GitlabPipelineStatus::from_name("completed"), None);
    assert_eq!(
        GitlabJobStatus::from_name("scheduled").unwrap().into_model(),
        JobState::Scheduled
    );
    assert_eq!(GitlabJobStatus::from_name("preparing"), None);
}

#[test]
fn access_levels() {
    assert!(AccessLevel::from_name("enabled").unwrap().is_enabled());
    assert!(AccessLevel::from_name("private").unwrap().is_enabled());
    assert!(!AccessLevel::from_name("disabled").unwrap().is_enabled());
    assert_eq!(AccessLevel::from_name("public"), None);
}
