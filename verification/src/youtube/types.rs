//! YouTube API types

use vstd::prelude::*;

verus! {

/// Youtube Related Playlists
#[derive(Debug)]
pub struct RelatedPlaylists {
    /// Liked videos
    pub likes: String,
}

/// The details of a channel
#[derive(Debug)]
pub struct ContentDetails {
    /// Related playlists
    pub related_playlists: RelatedPlaylists,
}

/// One channel
#[derive(Debug)]
pub struct Channel {
    /// contentDetails
    pub content_details: ContentDetails,
}

/// The answer to the question for the user's channels
#[derive(Debug)]
pub struct APIResponse {
    /// Items
    pub items: Vec<Channel>,
}

/// The answer to an exchange of a code for a token
#[derive(Debug)]
pub struct GoogleAccessToken {
    /// Access token
    pub access_token: String,
}

/// What an item of a playlist points to
#[derive(Debug)]
pub struct ResourceIdPlaylistItem {
    /// Video ID
    pub video_id: String,
}

/// What is told of an item of a playlist
#[derive(Debug)]
pub struct SnippetPlaylistItem {
    /// Title
    pub title: String,
    /// Published at
    pub published_at: String,
    /// Channel title
    pub video_owner_channel_title: Option<String>,
    /// Resource ID
    pub resource_id: ResourceIdPlaylistItem,
}

/// One item of a playlist
#[derive(Debug)]
pub struct PlaylistItem {
    /// Snippet
    pub snippet: SnippetPlaylistItem,
}

/// One page of a playlist
#[derive(Debug)]
pub struct PlaylistItems {
    /// Next page token
    pub next_page_token: Option<String>,
    /// Items
    pub items: Vec<PlaylistItem>,
}

} // verus!
