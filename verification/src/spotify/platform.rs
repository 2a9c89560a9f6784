//! Spotify platform implementation

use super::types::{PlaylistItem, PlaylistItems, SpotifyAccessToken};
use crate::errors::{plain_error, ErrorKind, ErrorView, MusicExporterError};
use crate::http::{
    base64_standard, bearer, build_url, built_url, expect_ok, get_request, is_failure, no_pairs,
    pair, pairs_view, request_is, to_base_64, HttpRequest, Method, RequestFailure, RequestView,
};
use crate::music::{views, Music, MusicView};
use crate::pagination::{CursorView, Page, PageCursor, PageView};
use crate::text::{decimal, decimal_string, joined};
use vstd::prelude::*;
use vstd::utf8::encode_utf8;

verus! {

/// The name of the environment variable that holds the client's id.
pub const SPOTIFY_ID_CLIENT: &'static str = "MUSIC_EXPORTER_SPOTIFY_ID_CLIENT";

/// The name of the environment variable that holds the client's secret.
pub const SPOTIFY_ID_CLIENT_SECRET: &'static str = "MUSIC_EXPORTER_SPOTIFY_ID_CLIENT_SECRET";

/// The number of records of a page: the most that the platform gives at
/// once.
pub const SPOTIFY_PAGE_SIZE: u64 = 50;

/// Spotify platform
#[derive(Debug)]
pub struct SpotifyPlatform {
    /// Authorization token, absent until a code was exchanged for one
    pub authorization: Option<String>,
}

/// The parameters of the address that the user opens to grant access.
pub open spec fn authorize_params(id_client: Seq<char>) -> Seq<(Seq<char>, Seq<char>)> {
    seq![
        ("client_id"@, id_client),
        ("response_type"@, "code"@),
        ("redirect_uri"@, "http://localhost:8000"@),
        ("scope"@, "playlist-read-private,user-library-read"@),
    ]
}

/// The address that the user opens to grant access to the client
/// `id_client`.
pub open spec fn authorize_address(id_client: Seq<char>) -> Result<Seq<char>, RequestFailure> {
    built_url("https://accounts.spotify.com/authorize"@, authorize_params(id_client))
}

/// The request that exchanges the code `code` for a token: the client shows
/// its id and secret, joined by a colon and encoded in base64, as basic
/// authorization.
pub open spec fn token_request_view(
    id_client: Seq<char>,
    id_client_secret: Seq<char>,
    code: Seq<char>,
) -> RequestView {
    RequestView {
        method: Method::Post,
        url: "https://accounts.spotify.com/api/token"@,
        headers: seq![
            ("Accept"@, "application/json"@),
            ("Content-Type"@, "application/x-www-form-urlencoded"@),
            (
                "Authorization"@,
                "Basic "@ + base64_standard(encode_utf8(id_client + ":"@ + id_client_secret)),
            ),
        ],
        query: Seq::empty(),
        form: seq![
            ("code"@, code),
            ("redirect_uri"@, "http://localhost:8000"@),
            ("grant_type"@, "authorization_code"@),
        ],
    }
}

/// The parameters that ask for the page that starts at `offset`, the first
/// page where there is none.
pub open spec fn page_params(offset: Option<u64>) -> Seq<(Seq<char>, Seq<char>)> {
    seq![
        ("limit"@, "50"@),
        (
            "offset"@,
            decimal(
                match offset {
                    Some(n) => n as nat,
                    None => 0,
                },
            ),
        ),
    ]
}

/// The headers of a request for a page.
pub open spec fn page_headers(token: Seq<char>) -> Seq<(Seq<char>, Seq<char>)> {
    seq![("Authorization"@, "Bearer "@ + token), ("Accept"@, "application/json"@)]
}

/// The record that is made of an item: its first artist is the author and
/// the first image of its album the thumbnail. There is none for an item
/// without an artist or without an image.
pub open spec fn music_of_item(item: PlaylistItem) -> Option<MusicView> {
    if item.track.artists@.len() == 0 || item.track.album.images@.len() == 0 {
        None
    } else {
        Some(
            MusicView {
                author: item.track.artists@[0].name@,
                title: item.track.name@,
                url: Some(item.track.external_urls.spotify@),
                thumbnail: Some(item.track.album.images@[0].url@),
                date: Some(item.track.album.release_date@),
                album: Some(item.track.album.name@),
            },
        )
    }
}

/// A record can be made of every item of the page, and the offset of the
/// page that follows, where one does, is a number that fits.
pub open spec fn page_is_readable(response: PlaylistItems) -> bool {
    &&& forall|i: int|
        0 <= i < response.items@.len() ==> music_of_item(#[trigger] response.items@[i]) is Some
    &&& response.next is Some ==> response.offset + 50 <= u64::MAX
}

/// The cursor of the page that follows: the offset of this page and the
/// size of a page, where the page holds a link to a next one.
pub open spec fn next_cursor(response: PlaylistItems) -> Option<CursorView> {
    if response.next is Some {
        Some(CursorView::Offset((response.offset + 50) as u64))
    } else {
        None
    }
}

/// The error for an item of which no record can be made.
pub open spec fn item_error(item: PlaylistItem) -> ErrorView {
    plain_error(
        ErrorKind::Parse,
        if item.track.artists@.len() == 0 {
            "A track has no artist"@
        } else {
            "An album has no image"@
        },
    )
}

/// `e` is the error of an answer that is not readable: that of its first
/// item of which no record can be made, and where there is no such item,
/// that of an offset too large.
pub open spec fn is_page_error(response: PlaylistItems, e: ErrorView) -> bool {
    ||| exists|i: int|
        {
            &&& 0 <= i < response.items@.len()
            &&& music_of_item(#[trigger] response.items@[i]) is None
            &&& forall|k: int| 0 <= k < i ==> music_of_item(#[trigger] response.items@[k]) is Some
            &&& e == item_error(response.items@[i])
        }
    ||| {
        &&& forall|k: int|
            0 <= k < response.items@.len() ==> music_of_item(#[trigger] response.items@[k])
                is Some
        &&& e == plain_error(ErrorKind::Parse, "The offset of the next page is too large"@)
    }
}

/// The page that an answer holds: a record for each item, in order, and
/// the cursor of the page that follows. There is none where the answer is
/// not readable.
pub open spec fn page_of(response: PlaylistItems) -> Option<PageView> {
    if page_is_readable(response) {
        Some(
            PageView {
                items: response.items@.map_values(|item: PlaylistItem| music_of_item(item)->0),
                next: next_cursor(response),
            },
        )
    } else {
        None
    }
}

impl SpotifyPlatform {
    /// A client that holds no token yet.
    pub fn new() -> (r: Self)
        ensures
            r.authorization is None,
    {
        SpotifyPlatform { authorization: None }
    }

    /// A client that holds the token of `token`.
    pub fn with_token(token: SpotifyAccessToken) -> (r: Self)
        ensures
            r.authorization == Some(token.access_token),
    {
        SpotifyPlatform { authorization: Some(token.access_token) }
    }

    /// The address that the user opens to grant access to the client
    /// `id_client`.
    pub fn authorize_url(id_client: &str) -> (r: Result<String, MusicExporterError>)
        ensures
            match (r, authorize_address(id_client@)) {
                (Ok(u), Ok(url)) => u@ == url,
                (Err(e), Err(failure)) => is_failure(e@, failure),
                _ => false,
            },
    {
        let mut params: Vec<(String, String)> = Vec::new();
        params.push(pair("client_id", id_client));
        params.push(pair("response_type", "code"));
        params.push(pair("redirect_uri", "http://localhost:8000"));
        params.push(pair("scope", "playlist-read-private,user-library-read"));
        assert(pairs_view(params@) == authorize_params(id_client@));
        build_url("https://accounts.spotify.com/authorize", &params)
    }

    /// The request that exchanges the code `code` for a token.
    pub fn token_request(id_client: &str, id_client_secret: &str, code: &str) -> (r: HttpRequest)
        ensures
            r@ == token_request_view(id_client@, id_client_secret@, code@),
    {
        let head = joined(id_client, ":");
        let credentials = joined(head.as_str(), id_client_secret);
        let encoded = to_base_64(credentials.as_str());
        let basic = joined("Basic ", encoded.as_str());
        assert(credentials@ == id_client@ + ":"@ + id_client_secret@);
        let mut headers: Vec<(String, String)> = Vec::new();
        headers.push(pair("Accept", "application/json"));
        headers.push(pair("Content-Type", "application/x-www-form-urlencoded"));
        headers.push(pair("Authorization", basic.as_str()));
        let mut form: Vec<(String, String)> = Vec::new();
        form.push(pair("code", code));
        form.push(pair("redirect_uri", "http://localhost:8000"));
        form.push(pair("grant_type", "authorization_code"));
        let r = HttpRequest {
            method: Method::Post,
            url: "https://accounts.spotify.com/api/token".to_owned(),
            headers,
            query: no_pairs(),
            form,
        };
        assert(r@.headers == token_request_view(id_client@, id_client_secret@, code@).headers);
        assert(r@.form == token_request_view(id_client@, id_client_secret@, code@).form);
        r
    }

    /// The request for the page that starts at `offset`, the first page
    /// where there is none. A client without a token is refused.
    pub open spec fn page_request_view(&self, offset: Option<u64>) -> Result<
        RequestView,
        RequestFailure,
    > {
        match self.authorization {
            Some(token) => get_request(
                "https://api.spotify.com/v1/me/tracks"@,
                page_params(offset),
                page_headers(token@),
                Seq::empty(),
            ),
            None => Err(
                RequestFailure::Refused(
                    plain_error(ErrorKind::Config, "Missing the authorization token"@),
                ),
            ),
        }
    }

    /// The request for the page that starts at `offset`, the first page
    /// where there is none. A client without a token cannot ask.
    pub fn page_request(&self, offset: Option<u64>) -> (r: Result<HttpRequest, MusicExporterError>)
        ensures
            request_is(r, self.page_request_view(offset)),
    {
        let token = match &self.authorization {
            Some(token) => token,
            None => {
                return Err(
                    MusicExporterError::of_kind(
                        ErrorKind::Config,
                        "Missing the authorization token",
                    ),
                );
            },
        };
        let start = decimal_string(
            match offset {
                Some(n) => n,
                None => 0,
            },
        );
        let mut params: Vec<(String, String)> = Vec::new();
        params.push(pair("limit", "50"));
        params.push(pair("offset", start.as_str()));
        assert(pairs_view(params@) == page_params(offset));
        let url = build_url("https://api.spotify.com/v1/me/tracks", &params)?;
        let mut headers: Vec<(String, String)> = Vec::new();
        headers.push(pair("Authorization", bearer(token.as_str()).as_str()));
        headers.push(pair("Accept", "application/json"));
        assert(pairs_view(headers@) == page_headers(token@));
        Ok(HttpRequest { method: Method::Get, url, headers, query: no_pairs(), form: no_pairs() })
    }

    /// Tells from the status of an answer to a request for a page whether
    /// the page can be read: only an answer with the status 200 holds one.
    pub fn check_status(status: u16, status_text: &str) -> (r: Result<(), MusicExporterError>)
        ensures
            r is Ok <==> status == 200,
            r is Err ==> r->Err_0@ == plain_error(
                ErrorKind::Transport,
                "Failed to get response for the playlist items "@ + status_text@,
            ),
    {
        expect_ok(status, status_text, "Failed to get response for the playlist items ")
    }

    /// The record that is made of an item.
    pub fn item_to_music(item: &PlaylistItem) -> (r: Result<Music, MusicExporterError>)
        ensures
            match r {
                Ok(music) => music_of_item(*item) == Some(music@),
                Err(e) => music_of_item(*item) is None && e@ == item_error(*item),
            },
    {
        if item.track.artists.len() == 0 {
            return Err(MusicExporterError::of_kind(ErrorKind::Parse, "A track has no artist"));
        }
        if item.track.album.images.len() == 0 {
            return Err(MusicExporterError::of_kind(ErrorKind::Parse, "An album has no image"));
        }
        Ok(
            Music {
                title: item.track.name.clone(),
                author: item.track.artists[0].name.clone(),
                thumbnail: Some(item.track.album.images[0].url.clone()),
                url: Some(item.track.external_urls.spotify.clone()),
                date: Some(item.track.album.release_date.clone()),
                album: Some(item.track.album.name.clone()),
            },
        )
    }

    /// The page that an answer holds: a record for each item, in order, and
    /// as the cursor of the page that follows the offset of this page and
    /// the size of a page.
    pub fn read_page(response: &PlaylistItems) -> (r: Result<Page, MusicExporterError>)
        ensures
            match r {
                Ok(page) => page_of(*response) == Some(page@),
                Err(e) => page_of(*response) is None && is_page_error(*response, e@),
            },
    {
        let mut items: Vec<Music> = Vec::new();
        let mut i: usize = 0;
        let ghost wanted = response.items@.map_values(|item: PlaylistItem| music_of_item(item)->0);
        while i < response.items.len()
            invariant
                i <= response.items@.len(),
                wanted == response.items@.map_values(
                    |item: PlaylistItem| music_of_item(item)->0,
                ),
                views(items@) == wanted.take(i as int),
                forall|k: int|
                    0 <= k < i ==> music_of_item(#[trigger] response.items@[k]) is Some,
            decreases response.items@.len() - i,
        {
            let music = match Self::item_to_music(&response.items[i]) {
                Ok(music) => music,
                Err(e) => {
                    assert(music_of_item(response.items@[i as int]) is None);
                    return Err(e);
                },
            };
            items.push(music);
            assert(views(items@) == wanted.take(i as int).push(wanted[i as int]));
            assert(wanted.take(i + 1) == wanted.take(i as int).push(wanted[i as int]));
            i += 1;
        }
        assert(wanted.take(response.items@.len() as int) == wanted);
        let next = if response.next.is_some() {
            if response.offset > u64::MAX - SPOTIFY_PAGE_SIZE {
                return Err(
                    MusicExporterError::of_kind(
                        ErrorKind::Parse,
                        "The offset of the next page is too large",
                    ),
                );
            }
            Some(PageCursor::Offset(response.offset + SPOTIFY_PAGE_SIZE))
        } else {
            None
        };
        Ok(Page { items, next })
    }
}

} // verus!
