//! What stands between a request and its handler.

pub mod basic_auth;
