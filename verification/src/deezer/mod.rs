//! The platform that is asked with a cookie and an account id, without any
//! exchange of tokens.

pub mod platform;
pub mod types;
