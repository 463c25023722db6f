//! Acquiring, caching and renewing OAuth2 access tokens for an SMTP session that
//! authenticates with XOAUTH2.
//!
//! The library decides; its caller acts. Reading and writing the token cache, talking to the
//! identity provider and waiting for the user are the caller's work. After each such action the
//! caller hands the result back, and the library says what comes next.

pub mod auth_code_grant;
pub mod cloud;
pub mod device_code_flow;
pub mod error;
pub mod flow;
pub mod get_profile;
pub mod login;
pub mod provider;
pub mod text;
pub mod token_keeper;
