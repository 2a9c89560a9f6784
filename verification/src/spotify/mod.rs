//! The platform that hands out a bearer token for an authorization code,
//! shown together with the client's id and secret.

pub mod platform;
pub mod types;
