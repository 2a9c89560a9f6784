//! Types for the Deezer API

use vstd::prelude::*;

verus! {

/// Artist struct
#[derive(Debug)]
pub struct Artist {
    /// Artist name
    pub name: String,
}

/// Album struct
#[derive(Debug)]
pub struct Album {
    /// Album title
    pub title: String,
    /// Album cover
    pub cover: String,
}

/// One track of a list
#[derive(Debug)]
pub struct TrackItem {
    /// Track title
    pub title: String,
    /// Track link
    pub link: String,
    /// Album struct
    pub album: Album,
    /// Artist struct
    pub artist: Artist,
}

/// One page of the list of tracks
#[derive(Debug)]
pub struct ApiResponse {
    /// Next page URL
    pub next: Option<String>,
    /// Track items
    pub data: Vec<TrackItem>,
}

} // verus!
