//! The platform whose requests carry a bearer token and an API key, and
//! whose titles are cleaned of marks such as "(official video)".

pub mod platform;
pub mod title;
pub mod types;
