//! The pure part of the GitHub integration: addresses, the reading of
//! answers, and the claims of an app token.

pub mod app_auth;
pub mod client;
pub mod errors;
pub mod models;
