//! Spotify API types

use vstd::prelude::*;

verus! {

/// Spotify Artist
#[derive(Debug)]
pub struct SpotifyArtist {
    /// Artist name
    pub name: String,
}

/// Spotify image
#[derive(Debug)]
pub struct SpotifyImage {
    /// Image url
    pub url: String,
}

/// Spotify album
#[derive(Debug)]
pub struct SpotifyAlbum {
    /// Album release date
    pub release_date: String,
    /// Album images
    pub images: Vec<SpotifyImage>,
    /// Album name
    pub name: String,
}

/// One track
#[derive(Debug)]
pub struct TrackPlaylistItem {
    /// Track name
    pub name: String,
    /// Track album
    pub album: SpotifyAlbum,
    /// Track artists
    pub artists: Vec<SpotifyArtist>,
    /// Track external urls
    pub external_urls: SpotifyExternalUrls,
}

/// The addresses of a track
#[derive(Debug)]
pub struct SpotifyExternalUrls {
    /// Spotify url
    pub spotify: String,
}

/// One item of a list of saved tracks
#[derive(Debug)]
pub struct PlaylistItem {
    /// Track item
    pub track: TrackPlaylistItem,
}

/// One page of the list of saved tracks
#[derive(Debug)]
pub struct PlaylistItems {
    /// Next page url
    pub next: Option<String>,
    /// Offset
    pub offset: u64,
    /// Playlist items
    pub items: Vec<PlaylistItem>,
}

/// The answer to an exchange of a code for a token
#[derive(Debug)]
pub struct SpotifyAccessToken {
    /// Access token
    pub access_token: String,
}

} // verus!
