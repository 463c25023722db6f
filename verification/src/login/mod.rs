//! Logging in without a cache.

pub mod login_workflow;
