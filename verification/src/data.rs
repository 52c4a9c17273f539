//! Data structures.
//!
//! With some convenience methods for managing them.

pub mod blob;
pub mod deployment;
pub mod environment;
pub mod instance;
pub mod job;
pub mod job_artifact;
pub mod merge_request;
pub mod number;
pub mod pipeline;
pub mod pipeline_schedule;
pub mod pipeline_variables;
pub mod project;
pub mod runner;
pub mod runner_host;
pub mod user;

pub use self::blob::Blob;
pub use self::blob::BlobReference;
pub use self::blob::ContentHash;

pub use self::deployment::Deployment;
pub use self::deployment::DeploymentBuilder;
pub use self::deployment::DeploymentBuilderError;
pub use self::deployment::DeploymentStatus;

pub use self::environment::Environment;
pub use self::environment::EnvironmentBuilder;
pub use self::environment::EnvironmentBuilderError;
pub use self::environment::EnvironmentState;
pub use self::environment::EnvironmentTier;

pub use self::instance::Instance;
pub use self::instance::InstanceBuilder;
pub use self::instance::InstanceBuilderError;

pub use self::job::Job;
pub use self::job::JobBuilder;
pub use self::job::JobBuilderError;
pub use self::job::JobState;

pub use self::job_artifact::ArtifactExpiration;
pub use self::job_artifact::ArtifactKind;
pub use self::job_artifact::ArtifactState;
pub use self::job_artifact::JobArtifact;
pub use self::job_artifact::JobArtifactBuilder;
pub use self::job_artifact::JobArtifactBuilderError;

pub use self::merge_request::MergeRequest;
pub use self::merge_request::MergeRequestBuilder;
pub use self::merge_request::MergeRequestBuilderError;
pub use self::merge_request::MergeRequestStatus;

pub use self::number::Binary64;

pub use self::pipeline::Pipeline;
pub use self::pipeline::PipelineBuilder;
pub use self::pipeline::PipelineBuilderError;
pub use self::pipeline::PipelineSource;
pub use self::pipeline::PipelineStatus;

pub use self::pipeline_schedule::PipelineSchedule;
pub use self::pipeline_schedule::PipelineScheduleBuilder;
pub use self::pipeline_schedule::PipelineScheduleBuilderError;

pub use self::pipeline_variables::PipelineVariable;
pub use self::pipeline_variables::PipelineVariableBuilder;
pub use self::pipeline_variables::PipelineVariableBuilderError;
pub use self::pipeline_variables::PipelineVariableType;
pub use self::pipeline_variables::PipelineVariables;

pub use self::project::Project;
pub use self::project::ProjectBuilder;
pub use self::project::ProjectBuilderError;

pub use self::runner::Runner;
pub use self::runner::RunnerBuilder;
pub use self::runner::RunnerBuilderError;
pub use self::runner::RunnerProtectionLevel;
pub use self::runner::RunnerType;

pub use self::runner_host::RunnerHost;
pub use self::runner_host::RunnerHostBuilder;
pub use self::runner_host::RunnerHostBuilderError;

pub use self::user::User;
pub use self::user::UserBuilder;
pub use self::user::UserBuilderError;
