//! Credential vault and repository provisioning core of the Unielit server.
//!
//! The crate holds the logic of the server: authenticated encryption of stored
//! refresh tokens, the OAuth token exchange with GitHub, the GitHub resource
//! gateway's decisions, the account and repository tables, and the workflows
//! that keep the local catalog consistent with GitHub.

pub mod errors;
pub mod encrypt;
pub mod oauth;
pub mod github;
pub mod models;
pub mod identity;
pub mod provisioning;
pub mod auth;
