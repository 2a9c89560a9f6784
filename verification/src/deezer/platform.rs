//! Deezer platform implementation

use super::types::{ApiResponse, TrackItem};
use crate::errors::{plain_error, ErrorKind, ErrorView, MusicExporterError};
use crate::http::{
    build_url, expect_ok, first_named, first_value, form_pairs, get_request, pair,
    is_failure, pairs_of_query, pairs_view, query_of, query_of_url, request_is, HttpRequest,
    Method, RequestFailure, RequestView,
};
use crate::music::{option_view, views, Music, MusicView};
use crate::pagination::{CursorView, Page, PageCursor, PageView};
use crate::text::{
    decimal, decimal_string, joined, lemma_parse_reads_decimal, parse_decimal, parse_u64,
};
use vstd::prelude::*;

verus! {

/// The name of the environment variable that holds the cookie.
pub const DEEZER_COOKIE: &'static str = "MUSIC_EXPORTER_DEEZER_COOKIE";

/// The name of the environment variable that holds the user id.
pub const DEEZER_USER_ID: &'static str = "MUSIC_EXPORTER_DEEZER_USER_ID";

/// Deezer platform implementation
#[derive(Debug)]
pub struct DeezerPlatform {
    /// Deezer cookie
    pub cookie: String,
    /// Deezer user id
    pub user_id: String,
}

/// The address of the list of tracks of the user `user_id`.
pub open spec fn tracks_address(user_id: Seq<char>) -> Seq<char> {
    "https://api.deezer.com/user/"@ + user_id + "/tracks"@
}

/// The parameters that ask for the page that starts at `offset`, the first
/// page where there is none: the index, and the limit of 50, the most that
/// the platform gives at once.
pub open spec fn page_params(offset: Option<u64>) -> Seq<(Seq<char>, Seq<char>)> {
    seq![
        (
            "index"@,
            decimal(
                match offset {
                    Some(n) => n as nat,
                    None => 0,
                },
            ),
        ),
        ("limit"@, "50"@),
    ]
}

/// The headers of every request: the cookie, and the wish for JSON.
pub open spec fn page_headers(cookie: Seq<char>) -> Seq<(Seq<char>, Seq<char>)> {
    seq![("cookie"@, cookie), ("Accept"@, "application/json"@)]
}

/// The record that is made of a track.
pub open spec fn music_of_track(item: TrackItem) -> MusicView {
    MusicView {
        author: item.artist.name@,
        title: item.title@,
        url: Some(item.link@),
        thumbnail: Some(item.album.cover@),
        date: None,
        album: Some(item.album.title@),
    }
}

/// The offset that a list of pairs names: the number that the first pair
/// named "index" holds. The outer `None` where that pair holds no number.
pub open spec fn index_of_pairs(pairs: Seq<(Seq<char>, Seq<char>)>) -> Option<Option<u64>> {
    match first_named(pairs, "index"@) {
        Some(i) => match parse_u64(pairs[i].1) {
            Some(n) => Some(Some(n)),
            None => None,
        },
        None => Some(None),
    }
}

/// The offset of the page that follows, read from the link `next` that a
/// page holds: none where the page holds no link, otherwise what the query
/// string of the link names. The outer `None` where the link is too long or
/// no URL, has no query string, or names no number.
pub open spec fn offset_of_link(next: Option<Seq<char>>) -> Option<Option<u64>> {
    match next {
        None => Some(None),
        Some(link) => match query_of(link) {
            Ok(Some(query)) => index_of_pairs(form_pairs(query)),
            _ => None,
        },
    }
}

/// `e` is the error for the link `link`, of which no offset can be read. It
/// tells whether the link is no URL, has no query string, or names no
/// number.
pub open spec fn is_link_error(link: Seq<char>, e: ErrorView) -> bool {
    match query_of(link) {
        Ok(Some(_)) => e == plain_error(ErrorKind::Parse, "Cannot read the index of the next page"@),
        Ok(None) => e == plain_error(ErrorKind::Parse, "Cannot get query"@),
        Err(failure) => is_failure(e, failure),
    }
}

/// The page that an answer holds: a record for each track, in order, and
/// the offset of the page that follows. There is none where that offset
/// cannot be read.
pub open spec fn page_of(response: ApiResponse) -> Option<PageView> {
    match offset_of_link(option_view(response.next)) {
        Some(next) => Some(
            PageView {
                items: response.data@.map_values(|item: TrackItem| music_of_track(item)),
                next: match next {
                    Some(n) => Some(CursorView::Offset(n)),
                    None => None,
                },
            },
        ),
        None => None,
    }
}

/// The offset that was asked for is read from the parameters that asked for
/// it: a link that holds them names the page that they ask for.
pub proof fn lemma_params_name_their_offset(offset: u64)
    ensures
        index_of_pairs(page_params(Some(offset))) == Some(Some(offset)),
{
    lemma_parse_reads_decimal(offset);
    let pairs = page_params(Some(offset));
    assert(pairs[0].0 == "index"@);
    assert(first_named(pairs, "index"@) == Some(0int));
}

impl Default for DeezerPlatform {
    fn default() -> (r: Self)
        ensures
            r.cookie@.len() == 0,
            r.user_id@.len() == 0,
    {
        DeezerPlatform { cookie: String::new(), user_id: String::new() }
    }
}

impl DeezerPlatform {
    /// A client for the account `user_id` that shows `cookie`. Nothing is
    /// exchanged: the two are the credentials.
    pub fn try_new(cookie: String, user_id: String) -> (r: Result<Self, MusicExporterError>)
        ensures
            r is Ok,
            r->Ok_0.cookie == cookie,
            r->Ok_0.user_id == user_id,
    {
        Ok(DeezerPlatform { cookie, user_id })
    }

    /// The request for the page that starts at `offset`, the first page
    /// where there is none.
    pub open spec fn page_request_view(&self, offset: Option<u64>) -> Result<
        RequestView,
        RequestFailure,
    > {
        get_request(
            tracks_address(self.user_id@),
            page_params(offset),
            page_headers(self.cookie@),
            Seq::empty(),
        )
    }

    /// The request for the page that starts at `offset`, the first page
    /// where there is none.
    pub fn page_request(&self, offset: Option<u64>) -> (r: Result<HttpRequest, MusicExporterError>)
        ensures
            request_is(r, self.page_request_view(offset)),
    {
        let head = joined("https://api.deezer.com/user/", self.user_id.as_str());
        let address = joined(head.as_str(), "/tracks");
        let index = decimal_string(
            match offset {
                Some(n) => n,
                None => 0,
            },
        );
        let mut params: Vec<(String, String)> = Vec::new();
        params.push(pair("index", index.as_str()));
        params.push(pair("limit", "50"));
        assert(pairs_view(params@) == page_params(offset));
        let url = build_url(address.as_str(), &params)?;
        let mut headers: Vec<(String, String)> = Vec::new();
        headers.push(pair("cookie", self.cookie.as_str()));
        headers.push(pair("Accept", "application/json"));
        assert(pairs_view(headers@) == page_headers(self.cookie@));
        let request = HttpRequest {
            method: Method::Get,
            url,
            headers,
            query: Vec::new(),
            form: Vec::new(),
        };
        assert(pairs_view(request.query@) == Seq::<(Seq<char>, Seq<char>)>::empty());
        assert(pairs_view(request.form@) == Seq::<(Seq<char>, Seq<char>)>::empty());
        Ok(request)
    }

    /// Tells from the status of an answer to a request for a page whether
    /// the page can be read: only an answer with the status 200 holds one.
    pub fn check_status(status: u16, status_text: &str) -> (r: Result<(), MusicExporterError>)
        ensures
            r is Ok <==> status == 200,
            r is Err ==> r->Err_0@ == plain_error(
                ErrorKind::Transport,
                "Failed to get response for the playlist items "@ + status_text@,
            ),
    {
        expect_ok(status, status_text, "Failed to get response for the playlist items ")
    }

    /// The record that is made of a track.
    pub fn track_to_music(item: &TrackItem) -> (r: Music)
        ensures
            r@ == music_of_track(*item),
    {
        Music {
            title: item.title.clone(),
            author: item.artist.name.clone(),
            thumbnail: Some(item.album.cover.clone()),
            url: Some(item.link.clone()),
            date: None,
            album: Some(item.album.title.clone()),
        }
    }

    /// The offset that the pairs of a query string name: the number that
    /// the first pair named "index" holds, none where no pair has that name.
    pub fn offset_of_pairs(pairs: &Vec<(String, String)>) -> (r: Result<
        Option<u64>,
        MusicExporterError,
    >)
        ensures
            match r {
                Ok(offset) => index_of_pairs(pairs_view(pairs@)) == Some(offset),
                Err(e) => index_of_pairs(pairs_view(pairs@)) is None && e@ == plain_error(
                    ErrorKind::Parse,
                    "Cannot read the index of the next page"@,
                ),
            },
    {
        match first_value(pairs, "index") {
            Some(value) => match parse_decimal(value.as_str()) {
                Some(n) => Ok(Some(n)),
                None => Err(
                    MusicExporterError::of_kind(
                        ErrorKind::Parse,
                        "Cannot read the index of the next page",
                    ),
                ),
            },
            None => Ok(None),
        }
    }

    /// The offset of the page that follows, read from the link that a page
    /// holds.
    pub fn next_offset(next: &Option<String>) -> (r: Result<Option<u64>, MusicExporterError>)
        ensures
            match r {
                Ok(offset) => offset_of_link(option_view(*next)) == Some(offset),
                Err(e) => offset_of_link(option_view(*next)) is None && next is Some
                    && is_link_error(next->0@, e@),
            },
    {
        match next {
            None => Ok(None),
            Some(link) => {
                match query_of_url(link.as_str())? {
                    Some(query) => {
                        let pairs = pairs_of_query(query.as_str());
                        Self::offset_of_pairs(&pairs)
                    },
                    None => Err(MusicExporterError::of_kind(ErrorKind::Parse, "Cannot get query")),
                }
            },
        }
    }

    /// The page that an answer holds: a record for each track, in order,
    /// and the offset of the page that follows.
    pub fn read_page(response: &ApiResponse) -> (r: Result<Page, MusicExporterError>)
        ensures
            match r {
                Ok(page) => page_of(*response) == Some(page@),
                Err(e) => page_of(*response) is None && response.next is Some && is_link_error(
                    response.next->0@,
                    e@,
                ),
            },
    {
        let mut items: Vec<Music> = Vec::new();
        let mut i: usize = 0;
        let ghost wanted = response.data@.map_values(|item: TrackItem| music_of_track(item));
        while i < response.data.len()
            invariant
                i <= response.data@.len(),
                wanted == response.data@.map_values(|item: TrackItem| music_of_track(item)),
                views(items@) == wanted.take(i as int),
            decreases response.data@.len() - i,
        {
            items.push(Self::track_to_music(&response.data[i]));
            assert(views(items@) == wanted.take(i as int).push(wanted[i as int]));
            assert(wanted.take(i + 1) == wanted.take(i as int).push(wanted[i as int]));
            i += 1;
        }
        assert(wanted.take(response.data@.len() as int) == wanted);
        let next = match Self::next_offset(&response.next)? {
            Some(n) => Some(PageCursor::Offset(n)),
            None => None,
        };
        Ok(Page { items, next })
    }
}

} // verus!
