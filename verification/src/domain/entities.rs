//! Entities of the domain.

pub mod subscriber;
