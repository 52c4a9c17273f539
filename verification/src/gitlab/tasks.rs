//! One module for each kind of record that GitLab reports.

pub mod job;
pub mod merge_request;
pub mod pipeline;
pub mod pipeline_schedule;
pub mod pipeline_variables;
pub mod project;
pub mod runner;
pub mod user;
