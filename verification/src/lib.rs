//! Aggregates a user's saved tracks from several music-streaming platforms
//! into one deduplicated, sorted catalog.
//!
//! The crate holds the decisions of that work: how a redirect is turned into
//! an authorization code, which requests a platform is sent and what its
//! answers mean, how records are normalized, deduplicated and ordered, and in
//! which order a run proceeds. Sockets, HTTP transport, files and JSON decoding
//! are left to the caller, which hands plain values in and takes plain values
//! back.

pub mod authorization;
pub mod catalog;
pub mod deezer;
pub mod errors;
pub mod exporter;
pub mod http;
pub mod music;
pub mod oauth;
pub mod order;
pub mod pagination;
pub mod platform;
pub mod spotify;
pub mod text;
pub mod youtube;

pub use deezer::platform::DeezerPlatform;
pub use errors::{ErrorKind, MusicExporterError};
pub use exporter::{MusicExporter, PlatformType};
pub use music::Music;
pub use platform::{Platform, PlatformClient};
pub use spotify::platform::SpotifyPlatform;
pub use youtube::platform::YoutubePlatform;
