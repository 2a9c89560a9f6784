//! What the platforms have in common: each makes the request for a page
//! that a cursor names, and reads the page that an answer holds.
//!
//! The set of platforms is closed. `PlatformClient` holds a client of one of
//! them, and `PageBody` an answer of one of them.

use crate::deezer::platform::DeezerPlatform;
use crate::errors::{plain_error, ErrorKind, MusicExporterError};
use crate::exporter::PlatformType;
use crate::http::{request_is, HttpRequest, RequestFailure, RequestView};
use crate::pagination::{CursorView, Page, PageCursor, PageView};
use crate::spotify::platform::SpotifyPlatform;
use crate::youtube::platform::YoutubePlatform;
use vstd::prelude::*;

verus! {

/// What a cursor that may be absent holds.
pub open spec fn cursor_of(cursor: Option<&PageCursor>) -> Option<CursorView> {
    match cursor {
        Some(c) => Some(c@),
        None => None,
    }
}

/// The offset that a cursor names: zero is meant where there is none. The
/// outer `None` for a cursor that is no offset.
pub open spec fn offset_of(cursor: Option<CursorView>) -> Option<Option<u64>> {
    match cursor {
        None => Some(None),
        Some(CursorView::Offset(n)) => Some(Some(n)),
        Some(CursorView::Token(_)) => None,
    }
}

/// The token that a cursor holds. The outer `None` for a cursor that is no
/// token.
pub open spec fn token_of_cursor(cursor: Option<CursorView>) -> Option<Option<Seq<char>>> {
    match cursor {
        None => Some(None),
        Some(CursorView::Token(t)) => Some(Some(t)),
        Some(CursorView::Offset(_)) => None,
    }
}

/// The refusal of a cursor that the platform did not hand out.
pub open spec fn foreign_cursor_refusal() -> RequestFailure {
    RequestFailure::Refused(
        plain_error(ErrorKind::Parse, "The cursor belongs to another platform"@),
    )
}

/// A client of a platform.
pub trait Platform {
    /// The platform that the client speaks to.
    spec fn kind(&self) -> PlatformType;

    /// The request that the client makes for the page that `cursor` names,
    /// the first page where there is none, or the failure where it can make
    /// none.
    spec fn request_view(&self, cursor: Option<CursorView>) -> Result<RequestView, RequestFailure>;

    /// The platform that the client speaks to.
    fn platform_type(&self) -> (r: PlatformType)
        ensures
            r == self.kind(),
    ;

    /// The request for the page that `cursor` names, the first page where
    /// there is none.
    fn fetch_request(&self, cursor: Option<&PageCursor>) -> (r: Result<
        HttpRequest,
        MusicExporterError,
    >)
        ensures
            request_is(r, self.request_view(cursor_of(cursor))),
    ;
}

/// An error for a cursor that the platform did not hand out.
fn foreign_cursor() -> (r: MusicExporterError)
    ensures
        foreign_cursor_refusal() == RequestFailure::Refused(r@),
{
    MusicExporterError::of_kind(ErrorKind::Parse, "The cursor belongs to another platform")
}

impl Platform for DeezerPlatform {
    open spec fn kind(&self) -> PlatformType {
        PlatformType::Deezer
    }

    open spec fn request_view(&self, cursor: Option<CursorView>) -> Result<RequestView, RequestFailure> {
        match offset_of(cursor) {
            Some(offset) => self.page_request_view(offset),
            None => Err(foreign_cursor_refusal()),
        }
    }

    fn platform_type(&self) -> (r: PlatformType) {
        PlatformType::Deezer
    }

    fn fetch_request(&self, cursor: Option<&PageCursor>) -> (r: Result<
        HttpRequest,
        MusicExporterError,
    >) {
        match cursor {
            None => self.page_request(None),
            Some(PageCursor::Offset(n)) => self.page_request(Some(*n)),
            Some(PageCursor::Token(_)) => Err(foreign_cursor()),
        }
    }
}

impl Platform for SpotifyPlatform {
    open spec fn kind(&self) -> PlatformType {
        PlatformType::Spotify
    }

    open spec fn request_view(&self, cursor: Option<CursorView>) -> Result<RequestView, RequestFailure> {
        match offset_of(cursor) {
            Some(offset) => self.page_request_view(offset),
            None => Err(foreign_cursor_refusal()),
        }
    }

    fn platform_type(&self) -> (r: PlatformType) {
        PlatformType::Spotify
    }

    fn fetch_request(&self, cursor: Option<&PageCursor>) -> (r: Result<
        HttpRequest,
        MusicExporterError,
    >) {
        match cursor {
            None => self.page_request(None),
            Some(PageCursor::Offset(n)) => self.page_request(Some(*n)),
            Some(PageCursor::Token(_)) => Err(foreign_cursor()),
        }
    }
}

impl Platform for YoutubePlatform {
    open spec fn kind(&self) -> PlatformType {
        PlatformType::Youtube
    }

    open spec fn request_view(&self, cursor: Option<CursorView>) -> Result<RequestView, RequestFailure> {
        match token_of_cursor(cursor) {
            Some(token) => match self.playlist_id {
                Some(playlist) => self.page_request_view(playlist@, token),
                None => Err(
                    RequestFailure::Refused(
                        plain_error(ErrorKind::Config, "Missing the id of the playlist"@),
                    ),
                ),
            },
            None => Err(foreign_cursor_refusal()),
        }
    }

    fn platform_type(&self) -> (r: PlatformType) {
        PlatformType::Youtube
    }

    fn fetch_request(&self, cursor: Option<&PageCursor>) -> (r: Result<
        HttpRequest,
        MusicExporterError,
    >) {
        let token = match cursor {
            None => None,
            Some(PageCursor::Token(t)) => Some(t),
            Some(PageCursor::Offset(_)) => {
                return Err(foreign_cursor());
            },
        };
        match &self.playlist_id {
            Some(playlist) => self.page_request(playlist.as_str(), token),
            None => Err(
                MusicExporterError::of_kind(ErrorKind::Config, "Missing the id of the playlist"),
            ),
        }
    }
}

/// A client of one of the platforms.
#[derive(Debug)]
pub enum PlatformClient {
    /// A client of Deezer.
    Deezer(DeezerPlatform),
    /// A client of Spotify.
    Spotify(SpotifyPlatform),
    /// A client of Youtube.
    Youtube(YoutubePlatform),
}

/// The answer of one of the platforms to the request for a page.
#[derive(Debug)]
pub enum PageBody {
    /// An answer of Deezer.
    Deezer(crate::deezer::types::ApiResponse),
    /// An answer of Spotify.
    Spotify(crate::spotify::types::PlaylistItems),
    /// An answer of Youtube.
    Youtube(crate::youtube::types::PlaylistItems),
}

impl PageBody {
    /// The platform that gave the answer.
    pub open spec fn kind(&self) -> PlatformType {
        match self {
            PageBody::Deezer(_) => PlatformType::Deezer,
            PageBody::Spotify(_) => PlatformType::Spotify,
            PageBody::Youtube(_) => PlatformType::Youtube,
        }
    }
}

/// The page that the answer `body` holds for a client of `platform`: none
/// where the answer is of another platform, or cannot be read.
pub open spec fn page_in(platform: PlatformType, body: PageBody) -> Option<PageView> {
    match (platform, body) {
        (PlatformType::Deezer, PageBody::Deezer(b)) => crate::deezer::platform::page_of(b),
        (PlatformType::Spotify, PageBody::Spotify(b)) => crate::spotify::platform::page_of(b),
        (PlatformType::Youtube, PageBody::Youtube(b)) => Some(
            crate::youtube::platform::page_of(b),
        ),
        _ => None,
    }
}

impl PlatformClient {
    /// The platform that the client speaks to.
    pub open spec fn kind(&self) -> PlatformType {
        match self {
            PlatformClient::Deezer(_) => PlatformType::Deezer,
            PlatformClient::Spotify(_) => PlatformType::Spotify,
            PlatformClient::Youtube(_) => PlatformType::Youtube,
        }
    }

    /// The request that the client makes for the page that `cursor` names.
    pub open spec fn request_view(&self, cursor: Option<CursorView>) -> Result<
        RequestView,
        RequestFailure,
    > {
        match self {
            PlatformClient::Deezer(c) => c.request_view(cursor),
            PlatformClient::Spotify(c) => c.request_view(cursor),
            PlatformClient::Youtube(c) => c.request_view(cursor),
        }
    }

    /// The platform that the client speaks to.
    pub fn platform_type(&self) -> (r: PlatformType)
        ensures
            r == self.kind(),
    {
        match self {
            PlatformClient::Deezer(c) => c.platform_type(),
            PlatformClient::Spotify(c) => c.platform_type(),
            PlatformClient::Youtube(c) => c.platform_type(),
        }
    }

    /// The request for the page that `cursor` names, the first page where
    /// there is none.
    pub fn fetch_request(&self, cursor: Option<&PageCursor>) -> (r: Result<
        HttpRequest,
        MusicExporterError,
    >)
        ensures
            request_is(r, self.request_view(cursor_of(cursor))),
    {
        match self {
            PlatformClient::Deezer(c) => c.fetch_request(cursor),
            PlatformClient::Spotify(c) => c.fetch_request(cursor),
            PlatformClient::Youtube(c) => c.fetch_request(cursor),
        }
    }

    /// The request that looks up the list to read, where it has to be looked
    /// up before the first page: so it is for a client of Youtube that was
    /// given no playlist, which reads the playlist of liked videos.
    pub open spec fn lookup_view(&self) -> Option<Result<RequestView, RequestFailure>> {
        match self {
            PlatformClient::Youtube(c) => if c.playlist_id is None {
                Some(c.liked_request_view())
            } else {
                None
            },
            _ => None,
        }
    }

    /// The request that looks up the list to read, where it has to be looked
    /// up.
    pub fn lookup_request(&self) -> (r: Option<Result<HttpRequest, MusicExporterError>>)
        ensures
            match (r, self.lookup_view()) {
                (Some(request), Some(wanted)) => request_is(request, wanted),
                (None, None) => true,
                _ => false,
            },
    {
        match self {
            PlatformClient::Youtube(c) => {
                if c.custom_playlist().is_none() {
                    Some(c.liked_playlist_request())
                } else {
                    None
                }
            },
            _ => None,
        }
    }

    /// Tells from the status of the answer to a lookup whether it can be
    /// read: only an answer with the status 200 can.
    pub fn check_lookup_status(&self, status: u16, status_text: &str) -> (r: Result<
        (),
        MusicExporterError,
    >)
        ensures
            r is Ok <==> status == 200,
            r is Err ==> r->Err_0@ == plain_error(
                ErrorKind::Transport,
                "Failed to get of the liked playlist "@ + status_text@,
            ),
    {
        YoutubePlatform::check_liked_status(status, status_text)
    }

    /// The client, set to read the list that the answer to its lookup names.
    /// A client that needs no lookup stays as it is.
    pub fn with_lookup(self, answer: &crate::youtube::types::APIResponse) -> (r: Result<
        PlatformClient,
        MusicExporterError,
    >)
        ensures
            match self {
                PlatformClient::Youtube(c) => if c.playlist_id is None {
                    match r {
                        Ok(PlatformClient::Youtube(set)) => set.api_key == c.api_key
                            && set.authorization == c.authorization && set.playlist_id is Some
                            && crate::youtube::platform::liked_playlist(*answer) == Some(
                            set.playlist_id->0@,
                        ),
                        Ok(_) => false,
                        Err(e) => crate::youtube::platform::liked_playlist(*answer) is None && e@
                            == plain_error(ErrorKind::Parse, "Cannot get liked playlist"@),
                    }
                } else {
                    r == Ok::<PlatformClient, MusicExporterError>(self)
                },
                _ => r == Ok::<PlatformClient, MusicExporterError>(self),
            },
    {
        match self {
            PlatformClient::Youtube(c) => {
                if c.custom_playlist().is_none() {
                    let liked = YoutubePlatform::read_liked_playlist(answer)?;
                    Ok(PlatformClient::Youtube(c.with_playlist(liked)))
                } else {
                    Ok(PlatformClient::Youtube(c))
                }
            },
            other => Ok(other),
        }
    }

    /// Tells from the status of an answer to a request for a page whether
    /// the page is to be read: only an answer with the status 200 is.
    pub fn check_status(&self, status: u16, status_text: &str) -> (r: Result<
        (),
        MusicExporterError,
    >)
        ensures
            r is Ok <==> status == 200,
            r is Err ==> r->Err_0@ == plain_error(
                ErrorKind::Transport,
                "Failed to get response for the playlist items "@ + status_text@,
            ),
    {
        match self {
            PlatformClient::Deezer(_) => DeezerPlatform::check_status(status, status_text),
            PlatformClient::Spotify(_) => SpotifyPlatform::check_status(status, status_text),
            PlatformClient::Youtube(_) => YoutubePlatform::check_status(status, status_text),
        }
    }

    /// The page that an answer holds. An answer of another platform than
    /// the client's is refused.
    pub fn read_page(&self, body: &PageBody) -> (r: Result<Page, MusicExporterError>)
        ensures
            match r {
                Ok(page) => page_in(self.kind(), *body) == Some(page@),
                Err(e) => page_in(self.kind(), *body) is None && e@.kind == ErrorKind::Parse
                    && match (self.kind(), *body) {
                    (PlatformType::Deezer, PageBody::Deezer(b)) => b.next is Some
                        && crate::deezer::platform::is_link_error(b.next->0@, e@),
                    (PlatformType::Spotify, PageBody::Spotify(b)) =>
                        crate::spotify::platform::is_page_error(b, e@),
                    _ => e@ == plain_error(
                        ErrorKind::Parse,
                        "The answer belongs to another platform"@,
                    ),
                },
            },
    {
        match (self, body) {
            (PlatformClient::Deezer(_), PageBody::Deezer(b)) => DeezerPlatform::read_page(b),
            (PlatformClient::Spotify(_), PageBody::Spotify(b)) => SpotifyPlatform::read_page(b),
            (PlatformClient::Youtube(_), PageBody::Youtube(b)) => Ok(YoutubePlatform::read_page(b)),
            _ => Err(
                MusicExporterError::of_kind(
                    ErrorKind::Parse,
                    "The answer belongs to another platform",
                ),
            ),
        }
    }
}

} // verus!
