//! Persistence: what is written to and read from the store.

pub mod repository;
pub mod store_model;
