//! Migration of a store's records into another store.

pub mod errors;
pub mod index_map;
pub mod objects;
