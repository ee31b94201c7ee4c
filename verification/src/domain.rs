//! The domain: validated values and the subscriber entity.

pub mod entities;
pub mod value_objects;
