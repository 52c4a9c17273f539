//! Object stores for the entity graph.

pub mod arc;
pub mod vec;
