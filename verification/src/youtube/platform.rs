//! Youtube platform implementation

use super::title::{clean, cleaned_title};
use super::types::{APIResponse, GoogleAccessToken, PlaylistItem, PlaylistItems};
use crate::errors::{plain_error, ErrorKind, ErrorView, MusicExporterError};
use crate::http::{
    bearer, build_url, expect_ok, get_request, no_pairs, pair, pairs_view, request_is,
    HttpRequest, Method, RequestFailure, RequestView,
};
use crate::music::{option_view, views, Music, MusicView};
use crate::pagination::{CursorView, Page, PageCursor, PageView};
use crate::text::{joined, strip_suffix, without_suffix};
use vstd::prelude::*;

verus! {

/// The name of the environment variable that holds the API key.
pub const YOUTUBE_API_KEY: &'static str = "MUSIC_EXPORTER_YOUTUBE_API_KEY";

/// The name of the environment variable that holds the client's id.
pub const YOUTUBE_ID_CLIENT: &'static str = "MUSIC_EXPORTER_YOUTUBE_ID_CLIENT";

/// The name of the environment variable that holds the client's secret.
pub const YOUTUBE_ID_CLIENT_SECRET: &'static str = "MUSIC_EXPORTER_YOUTUBE_ID_CLIENT_SECRET";

/// Youtube redirect URI
pub const YOUTUBE_REDIRECT_URI: &'static str = "http://localhost:8000";

/// Youtube platform
#[derive(Debug)]
pub struct YoutubePlatform {
    /// API key
    pub api_key: Option<String>,
    /// Authorization token, absent until a code was exchanged for one
    pub authorization: Option<String>,
    /// custom playlist id
    pub playlist_id: Option<String>,
}

/// The address that the user opens to grant access to the client
/// `id_client`.
pub open spec fn authorize_address(id_client: Seq<char>) -> Seq<char> {
    "https://accounts.google.com/o/oauth2/v2/auth?client_id="@ + id_client + "&redirect_uri="@
        + "http://localhost:8000"@ + "&scope="@
        + "https://www.googleapis.com/auth/youtube.readonly"@ + "&response_type=code"@
}

/// The request that exchanges the code `code` for a token.
pub open spec fn token_request_view(
    id_client: Seq<char>,
    id_client_secret: Seq<char>,
    code: Seq<char>,
) -> RequestView {
    RequestView {
        method: Method::Post,
        url: "https://oauth2.googleapis.com/token"@,
        headers: seq![("Accept"@, "application/json"@)],
        query: Seq::empty(),
        form: seq![
            ("code"@, code),
            ("client_id"@, id_client),
            ("client_secret"@, id_client_secret),
            ("redirect_uri"@, "http://localhost:8000"@),
            ("grant_type"@, "authorization_code"@),
        ],
    }
}

/// The headers of every request that shows the token.
pub open spec fn bearer_headers(token: Seq<char>) -> Seq<(Seq<char>, Seq<char>)> {
    seq![("Authorization"@, "Bearer "@ + token), ("Accept"@, "application/json"@)]
}

/// The parameters that ask for the user's own channels.
pub open spec fn channels_params(api_key: Seq<char>) -> Seq<(Seq<char>, Seq<char>)> {
    seq![("part"@, "snippet,contentDetails,statistics"@), ("mine"@, "true"@), ("key"@, api_key)]
}

/// The parameters that ask for the items of the playlist `playlist_id`.
pub open spec fn items_params(playlist_id: Seq<char>, api_key: Seq<char>) -> Seq<
    (Seq<char>, Seq<char>),
> {
    seq![("playlistId"@, playlist_id), ("key"@, api_key)]
}

/// The address of the items of a playlist, with the wish for pages of 50,
/// the most that the platform gives at once.
pub open spec fn items_address() -> Seq<char> {
    "https://youtube.googleapis.com/youtube/v3/playlistItems?part=snippet%2CcontentDetails&maxResults=50"@
}

/// The token that is sent to ask for a page: the cursor's, and the empty
/// text for the first page.
pub open spec fn token_of(page_token: Option<Seq<char>>) -> Seq<char> {
    match page_token {
        Some(t) => t,
        None => Seq::empty(),
    }
}

/// The author of a video: the title of the owner's channel without
/// " - Topic" at its end, and "Unknown" where no channel is told.
pub open spec fn author_of(channel: Option<Seq<char>>) -> Seq<char> {
    match channel {
        Some(name) => without_suffix(name, " - Topic"@),
        None => "Unknown"@,
    }
}

/// The record that is made of an item.
pub open spec fn music_of_item(item: PlaylistItem) -> MusicView {
    MusicView {
        author: author_of(option_view(item.snippet.video_owner_channel_title)),
        title: cleaned_title(item.snippet.title@),
        url: Some("https://www.youtube.com/watch?v="@ + item.snippet.resource_id.video_id@),
        thumbnail: Some(
            "https://img.youtube.com/vi/"@ + item.snippet.resource_id.video_id@
                + "/default.jpg"@,
        ),
        date: Some(item.snippet.published_at@),
        album: None,
    }
}

/// The error of a client that lacks its key or, with a key, its token.
pub open spec fn missing_credential(api_key: Option<String>) -> ErrorView {
    plain_error(
        ErrorKind::Config,
        if api_key is None {
            "Missing the API key"@
        } else {
            "Missing the authorization token"@
        },
    )
}

/// The id of the playlist of liked videos that an answer names: that of the
/// first channel.
pub open spec fn liked_playlist(response: APIResponse) -> Option<Seq<char>> {
    if response.items@.len() == 0 {
        None
    } else {
        Some(response.items@[0].content_details.related_playlists.likes@)
    }
}

/// The page that an answer holds: a record for each item, in order, and
/// the token of the page that follows.
pub open spec fn page_of(response: PlaylistItems) -> PageView {
    PageView {
        items: response.items@.map_values(|item: PlaylistItem| music_of_item(item)),
        next: match response.next_page_token {
            Some(t) => Some(CursorView::Token(t@)),
            None => None,
        },
    }
}

impl YoutubePlatform {
    /// A client that holds neither key nor token yet.
    pub fn new() -> (r: Self)
        ensures
            r.api_key is None,
            r.authorization is None,
            r.playlist_id is None,
    {
        YoutubePlatform { api_key: None, authorization: None, playlist_id: None }
    }

    /// A client that holds the key `api_key` and the token of `token`, and
    /// reads the playlist `playlist_id` where one is given.
    pub fn with_token(api_key: String, token: GoogleAccessToken, playlist_id: Option<String>) -> (r:
        Self)
        ensures
            r.api_key == Some(api_key),
            r.authorization == Some(token.access_token),
            r.playlist_id == playlist_id,
    {
        YoutubePlatform {
            api_key: Some(api_key),
            authorization: Some(token.access_token),
            playlist_id,
        }
    }

    /// The address that the user opens to grant access to the client
    /// `id_client`.
    pub fn authorize_url(id_client: &str) -> (r: String)
        ensures
            r@ == authorize_address(id_client@),
    {
        let mut r = joined("https://accounts.google.com/o/oauth2/v2/auth?client_id=", id_client);
        r.append("&redirect_uri=");
        r.append(YOUTUBE_REDIRECT_URI);
        r.append("&scope=");
        r.append("https://www.googleapis.com/auth/youtube.readonly");
        r.append("&response_type=code");
        r
    }

    /// The request that exchanges the code `code` for a token.
    pub fn token_request(id_client: &str, id_client_secret: &str, code: &str) -> (r: HttpRequest)
        ensures
            r@ == token_request_view(id_client@, id_client_secret@, code@),
    {
        let mut headers: Vec<(String, String)> = Vec::new();
        headers.push(pair("Accept", "application/json"));
        let mut form: Vec<(String, String)> = Vec::new();
        form.push(pair("code", code));
        form.push(pair("client_id", id_client));
        form.push(pair("client_secret", id_client_secret));
        form.push(pair("redirect_uri", YOUTUBE_REDIRECT_URI));
        form.push(pair("grant_type", "authorization_code"));
        let r = HttpRequest {
            method: Method::Post,
            url: "https://oauth2.googleapis.com/token".to_owned(),
            headers,
            query: no_pairs(),
            form,
        };
        assert(r@.headers == token_request_view(id_client@, id_client_secret@, code@).headers);
        assert(r@.form == token_request_view(id_client@, id_client_secret@, code@).form);
        r
    }

    /// The key and the token of the client. A client that lacks one of them
    /// cannot ask anything.
    fn credentials(&self) -> (r: Result<(&String, &String), MusicExporterError>)
        ensures
            match r {
                Ok((key, token)) => self.api_key == Some(*key) && self.authorization == Some(
                    *token,
                ),
                Err(e) => (self.api_key is None || self.authorization is None) && e@
                    == missing_credential(self.api_key),
            },
    {
        match (&self.api_key, &self.authorization) {
            (Some(key), Some(token)) => Ok((key, token)),
            (None, _) => Err(MusicExporterError::of_kind(ErrorKind::Config, "Missing the API key")),
            (_, None) => Err(
                MusicExporterError::of_kind(ErrorKind::Config, "Missing the authorization token"),
            ),
        }
    }

    /// The headers that show `token`.
    fn headers_with(token: &String) -> (r: Vec<(String, String)>)
        ensures
            pairs_view(r@) == bearer_headers(token@),
    {
        let mut headers: Vec<(String, String)> = Vec::new();
        headers.push(pair("Authorization", bearer(token.as_str()).as_str()));
        headers.push(pair("Accept", "application/json"));
        assert(pairs_view(headers@) == bearer_headers(token@));
        headers
    }

    /// The client, set to read the playlist `playlist_id`.
    pub fn with_playlist(self, playlist_id: String) -> (r: Self)
        ensures
            r.api_key == self.api_key,
            r.authorization == self.authorization,
            r.playlist_id == Some(playlist_id),
    {
        YoutubePlatform {
            api_key: self.api_key,
            authorization: self.authorization,
            playlist_id: Some(playlist_id),
        }
    }

    /// The playlist that was asked for, where one was. Without one the
    /// playlist of liked videos is looked up before the first page.
    pub fn custom_playlist(&self) -> (r: Option<&String>)
        ensures
            match r {
                Some(id) => self.playlist_id == Some(*id),
                None => self.playlist_id is None,
            },
    {
        self.playlist_id.as_ref()
    }

    /// The request for the user's own channels, one of which names the
    /// playlist of liked videos. A client that lacks its key or its token is
    /// refused.
    pub open spec fn liked_request_view(&self) -> Result<RequestView, RequestFailure> {
        match (self.api_key, self.authorization) {
            (Some(key), Some(token)) => get_request(
                "https://youtube.googleapis.com/youtube/v3/channels"@,
                channels_params(key@),
                bearer_headers(token@),
                Seq::empty(),
            ),
            _ => Err(RequestFailure::Refused(missing_credential(self.api_key))),
        }
    }

    /// The request for the page of the playlist `playlist_id` that
    /// `page_token` names, the first page where there is none. A client that
    /// lacks its key or its token is refused.
    pub open spec fn page_request_view(
        &self,
        playlist_id: Seq<char>,
        page_token: Option<Seq<char>>,
    ) -> Result<RequestView, RequestFailure> {
        match (self.api_key, self.authorization) {
            (Some(key), Some(token)) => get_request(
                items_address(),
                items_params(playlist_id, key@),
                bearer_headers(token@),
                seq![("pageToken"@, token_of(page_token))],
            ),
            _ => Err(RequestFailure::Refused(missing_credential(self.api_key))),
        }
    }

    /// The request for the user's own channels, one of which names the
    /// playlist of liked videos.
    pub fn liked_playlist_request(&self) -> (r: Result<HttpRequest, MusicExporterError>)
        ensures
            request_is(r, self.liked_request_view()),
    {
        let (key, token) = self.credentials()?;
        let mut params: Vec<(String, String)> = Vec::new();
        params.push(pair("part", "snippet,contentDetails,statistics"));
        params.push(pair("mine", "true"));
        params.push(pair("key", key.as_str()));
        assert(pairs_view(params@) == channels_params(key@));
        let url = build_url("https://youtube.googleapis.com/youtube/v3/channels", &params)?;
        Ok(
            HttpRequest {
                method: Method::Get,
                url,
                headers: Self::headers_with(token),
                query: no_pairs(),
                form: no_pairs(),
            },
        )
    }

    /// The id of the playlist of liked videos that an answer names.
    pub fn read_liked_playlist(response: &APIResponse) -> (r: Result<String, MusicExporterError>)
        ensures
            match r {
                Ok(id) => liked_playlist(*response) == Some(id@),
                Err(e) => liked_playlist(*response) is None && e@ == plain_error(
                    ErrorKind::Parse,
                    "Cannot get liked playlist"@,
                ),
            },
    {
        if response.items.len() == 0 {
            Err(MusicExporterError::of_kind(ErrorKind::Parse, "Cannot get liked playlist"))
        } else {
            Ok(response.items[0].content_details.related_playlists.likes.clone())
        }
    }

    /// The request for the page of the playlist `playlist_id` that
    /// `page_token` names, the first page where there is none.
    pub fn page_request(&self, playlist_id: &str, page_token: Option<&String>) -> (r: Result<
        HttpRequest,
        MusicExporterError,
    >)
        ensures
            request_is(
                r,
                self.page_request_view(
                    playlist_id@,
                    match page_token {
                        Some(t) => Some(t@),
                        None => None,
                    },
                ),
            ),
    {
        let (key, token) = self.credentials()?;
        let mut params: Vec<(String, String)> = Vec::new();
        params.push(pair("playlistId", playlist_id));
        params.push(pair("key", key.as_str()));
        assert(pairs_view(params@) == items_params(playlist_id@, key@));
        let url = build_url(
            "https://youtube.googleapis.com/youtube/v3/playlistItems?part=snippet%2CcontentDetails&maxResults=50",
            &params,
        )?;
        let mut query: Vec<(String, String)> = Vec::new();
        match page_token {
            Some(t) => {
                query.push(pair("pageToken", t.as_str()));
            },
            None => {
                let empty = String::new();
                query.push(pair("pageToken", empty.as_str()));
            },
        }
        assert(pairs_view(query@) == seq![
            (
                "pageToken"@,
                token_of(
                    match page_token {
                        Some(t) => Some(t@),
                        None => None,
                    },
                ),
            ),
        ]);
        Ok(
            HttpRequest {
                method: Method::Get,
                url,
                headers: Self::headers_with(token),
                query,
                form: no_pairs(),
            },
        )
    }

    /// Tells from the status of an answer to a request for a page whether
    /// the page can be read: only an answer with the status 200 holds one.
    pub fn check_status(status: u16, status_text: &str) -> (r: Result<(), MusicExporterError>)
        ensures
            r is Ok <==> status == 200,
            r is Err ==> r->Err_0@ == plain_error(
                ErrorKind::Transport,
                "Failed to get response for the playlist items "@ + status_text@,
            ),
    {
        expect_ok(status, status_text, "Failed to get response for the playlist items ")
    }

    /// Tells from the status of an answer to the request for the user's
    /// channels whether it can be read: only an answer with the status 200
    /// can.
    pub fn check_liked_status(status: u16, status_text: &str) -> (r: Result<
        (),
        MusicExporterError,
    >)
        ensures
            r is Ok <==> status == 200,
            r is Err ==> r->Err_0@ == plain_error(
                ErrorKind::Transport,
                "Failed to get of the liked playlist "@ + status_text@,
            ),
    {
        expect_ok(status, status_text, "Failed to get of the liked playlist ")
    }

    /// Clean the title
    pub fn clean_title(title: &str) -> (r: String)
        ensures
            r@ == cleaned_title(title@),
    {
        clean(title)
    }

    /// The author of a video, from the title of its owner's channel.
    pub fn clean_author(channel: &Option<String>) -> (r: String)
        ensures
            r@ == author_of(option_view(*channel)),
    {
        match channel {
            Some(name) => strip_suffix(name.as_str(), " - Topic"),
            None => "Unknown".to_owned(),
        }
    }

    /// The record that is made of an item.
    pub fn item_to_music(item: &PlaylistItem) -> (r: Music)
        ensures
            r@ == music_of_item(*item),
    {
        let id = item.snippet.resource_id.video_id.as_str();
        let thumbnail_head = joined("https://img.youtube.com/vi/", id);
        Music {
            title: Self::clean_title(item.snippet.title.as_str()),
            author: Self::clean_author(&item.snippet.video_owner_channel_title),
            thumbnail: Some(joined(thumbnail_head.as_str(), "/default.jpg")),
            url: Some(joined("https://www.youtube.com/watch?v=", id)),
            date: Some(item.snippet.published_at.clone()),
            album: None,
        }
    }

    /// The page that an answer holds: a record for each item, in order, and
    /// the token of the page that follows.
    pub fn read_page(response: &PlaylistItems) -> (r: Page)
        ensures
            r@ == page_of(*response),
    {
        let mut items: Vec<Music> = Vec::new();
        let mut i: usize = 0;
        let ghost wanted = response.items@.map_values(|item: PlaylistItem| music_of_item(item));
        while i < response.items.len()
            invariant
                i <= response.items@.len(),
                wanted == response.items@.map_values(|item: PlaylistItem| music_of_item(item)),
                views(items@) == wanted.take(i as int),
            decreases response.items@.len() - i,
        {
            items.push(Self::item_to_music(&response.items[i]));
            assert(views(items@) == wanted.take(i as int).push(wanted[i as int]));
            assert(wanted.take(i + 1) == wanted.take(i as int).push(wanted[i as int]));
            i += 1;
        }
        assert(wanted.take(response.items@.len() as int) == wanted);
        let next = match &response.next_page_token {
            Some(t) => Some(PageCursor::Token(t.clone())),
            None => None,
        };
        Page { items, next }
    }
}

} // verus!
