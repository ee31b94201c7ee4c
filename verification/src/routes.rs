//! The request handlers' decisions.

pub mod confirm_subscription;
pub mod publish_newsletter;
pub mod subscribe;
