//! Newsletter subscription service core: validated domain values, the
//! onboarding and confirmation workflows, the error taxonomy and access
//! control, each with a machine-checked contract.

pub mod app_config;
pub mod domain;
pub mod email_client;
pub mod error;
pub mod infrastructure;
pub mod middlewares;
pub mod routes;
pub mod startup;
pub mod text;
