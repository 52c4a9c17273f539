//! Reconciling what a GitLab instance reports into the store.

pub mod errors;
pub mod forge;
pub mod lookup;
pub mod tasks;
