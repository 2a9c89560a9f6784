//! Authorizing a client: from the credentials that the configuration gave to
//! a client that can ask for pages.
//!
//! A platform that takes a cookie needs nothing more. The others hand out a
//! bearer token for an authorization code: the user is shown an address, the
//! listener captures the code of the redirect, and the code is exchanged for
//! the token. Here is decided what is shown, what is sent, and what a
//! failure of either step means; the caller listens and sends.

use crate::deezer::platform::{DeezerPlatform, DEEZER_COOKIE, DEEZER_USER_ID};
use crate::errors::{error_text, plain_error, ErrorKind, ErrorView, MusicExporterError};
use crate::exporter::PlatformType;
use crate::http::{is_failure, HttpRequest, RequestFailure, RequestView};
use crate::oauth::{ReceivedCode, DEFAULT_PORT};
use crate::platform::PlatformClient;
use crate::spotify::platform::{SpotifyPlatform, SPOTIFY_ID_CLIENT, SPOTIFY_ID_CLIENT_SECRET};
use crate::spotify::types::SpotifyAccessToken;
use crate::youtube::platform::{
    YoutubePlatform, YOUTUBE_API_KEY, YOUTUBE_ID_CLIENT, YOUTUBE_ID_CLIENT_SECRET,
};
use crate::youtube::types::GoogleAccessToken;
use vstd::prelude::*;

verus! {

/// What the configuration gave for one platform.
#[derive(Debug)]
pub enum Credentials {
    /// A cookie and the id of the account that it belongs to.
    Cookie {
        /// The cookie.
        cookie: String,
        /// The id of the account.
        user_id: String,
    },
    /// The id and the secret of a registered client.
    Client {
        /// The id of the client.
        id_client: String,
        /// The secret of the client.
        id_client_secret: String,
    },
    /// The id and the secret of a registered client, and an API key.
    ClientWithKey {
        /// The API key.
        api_key: String,
        /// The id of the client.
        id_client: String,
        /// The secret of the client.
        id_client_secret: String,
        /// The playlist to read, where one was asked for.
        playlist_id: Option<String>,
    },
}

/// One value that the configuration is asked for.
#[derive(Debug, Clone, Copy)]
pub struct Variable {
    /// What the user is asked where the environment does not hold the value.
    pub prompt: &'static str,
    /// The name of the environment variable that holds the value.
    pub name: &'static str,
}

/// What `platform` needs, in the order in which the values are asked for:
/// for each value what the user is asked, and the name of the environment
/// variable that holds it.
pub open spec fn variables_of(platform: PlatformType) -> Seq<(Seq<char>, Seq<char>)> {
    match platform {
        PlatformType::Deezer => seq![
            ("Please enter your deezer cookie"@, "MUSIC_EXPORTER_DEEZER_COOKIE"@),
            ("Please enter your deezer user id"@, "MUSIC_EXPORTER_DEEZER_USER_ID"@),
        ],
        PlatformType::Spotify => seq![
            ("Please enter id_client"@, "MUSIC_EXPORTER_SPOTIFY_ID_CLIENT"@),
            ("Please enter id_client_secret"@, "MUSIC_EXPORTER_SPOTIFY_ID_CLIENT_SECRET"@),
        ],
        PlatformType::Youtube => seq![
            ("Please enter the youtube developper app API KEY"@, "MUSIC_EXPORTER_YOUTUBE_API_KEY"@),
            (
                "Please enter the youtube developper app 'id_client'"@,
                "MUSIC_EXPORTER_YOUTUBE_ID_CLIENT"@,
            ),
            (
                "Please enter the youtube developper app 'id_client_secret'"@,
                "MUSIC_EXPORTER_YOUTUBE_ID_CLIENT_SECRET"@,
            ),
        ],
    }
}

/// The credentials that are made of `values`, given in the order of the
/// variables of `platform`; none where their number is not that of the
/// variables.
pub open spec fn credentials_of(
    platform: PlatformType,
    values: Seq<String>,
    playlist_id: Option<String>,
) -> Option<Credentials> {
    if values.len() != variables_of(platform).len() {
        None
    } else {
        Some(
            match platform {
                PlatformType::Deezer => Credentials::Cookie {
                    cookie: values[0],
                    user_id: values[1],
                },
                PlatformType::Spotify => Credentials::Client {
                    id_client: values[0],
                    id_client_secret: values[1],
                },
                PlatformType::Youtube => Credentials::ClientWithKey {
                    api_key: values[0],
                    id_client: values[1],
                    id_client_secret: values[2],
                    playlist_id,
                },
            },
        )
    }
}

impl Credentials {
    /// What the configuration is asked for `platform`, in order.
    pub fn variables(platform: PlatformType) -> (r: Vec<Variable>)
        ensures
            r@.map_values(|v: Variable| (v.prompt@, v.name@)) == variables_of(platform),
    {
        let mut r: Vec<Variable> = Vec::new();
        match platform {
            PlatformType::Deezer => {
                r.push(Variable { prompt: "Please enter your deezer cookie", name: DEEZER_COOKIE });
                r.push(
                    Variable { prompt: "Please enter your deezer user id", name: DEEZER_USER_ID },
                );
            },
            PlatformType::Spotify => {
                r.push(Variable { prompt: "Please enter id_client", name: SPOTIFY_ID_CLIENT });
                r.push(
                    Variable {
                        prompt: "Please enter id_client_secret",
                        name: SPOTIFY_ID_CLIENT_SECRET,
                    },
                );
            },
            PlatformType::Youtube => {
                r.push(
                    Variable {
                        prompt: "Please enter the youtube developper app API KEY",
                        name: YOUTUBE_API_KEY,
                    },
                );
                r.push(
                    Variable {
                        prompt: "Please enter the youtube developper app 'id_client'",
                        name: YOUTUBE_ID_CLIENT,
                    },
                );
                r.push(
                    Variable {
                        prompt: "Please enter the youtube developper app 'id_client_secret'",
                        name: YOUTUBE_ID_CLIENT_SECRET,
                    },
                );
            },
        }
        assert(r@.map_values(|v: Variable| (v.prompt@, v.name@)) =~= variables_of(platform));
        r
    }

    /// The credentials of `platform`, made of the values of its variables
    /// in their order. A value too few or too many is a missing credential.
    pub fn from_values(
        platform: PlatformType,
        values: Vec<String>,
        playlist_id: Option<String>,
    ) -> (r: Result<Credentials, MusicExporterError>)
        ensures
            match r {
                Ok(credentials) => credentials_of(platform, values@, playlist_id) == Some(
                    credentials,
                ),
                Err(e) => credentials_of(platform, values@, playlist_id) is None && e@
                    == plain_error(ErrorKind::Config, "Missing a required credential"@),
            },
    {
        let mut values = values;
        let ghost given = values@;
        let wanted: usize = match platform {
            PlatformType::Youtube => 3,
            _ => 2,
        };
        if values.len() != wanted {
            return Err(
                MusicExporterError::of_kind(ErrorKind::Config, "Missing a required credential"),
            );
        }
        let third = if wanted == 3 {
            values.pop()
        } else {
            None
        };
        let second = values.pop();
        let first = values.pop();
        match (platform, first, second, third) {
            (PlatformType::Deezer, Some(cookie), Some(user_id), _) => Ok(
                Credentials::Cookie { cookie, user_id },
            ),
            (PlatformType::Spotify, Some(id_client), Some(id_client_secret), _) => Ok(
                Credentials::Client { id_client, id_client_secret },
            ),
            (
                PlatformType::Youtube,
                Some(api_key),
                Some(id_client),
                Some(id_client_secret),
            ) => Ok(
                Credentials::ClientWithKey { api_key, id_client, id_client_secret, playlist_id },
            ),
            _ => Err(
                MusicExporterError::of_kind(ErrorKind::Config, "Missing a required credential"),
            ),
        }
    }

    /// The platform that takes credentials of this form.
    pub open spec fn platform(&self) -> PlatformType {
        match self {
            Credentials::Cookie { .. } => PlatformType::Deezer,
            Credentials::Client { .. } => PlatformType::Spotify,
            Credentials::ClientWithKey { .. } => PlatformType::Youtube,
        }
    }

    /// The platform that takes credentials of this form.
    pub fn platform_type(&self) -> (r: PlatformType)
        ensures
            r == self.platform(),
    {
        match self {
            Credentials::Cookie { .. } => PlatformType::Deezer,
            Credentials::Client { .. } => PlatformType::Spotify,
            Credentials::ClientWithKey { .. } => PlatformType::Youtube,
        }
    }
}

/// Where an authorization stands.
#[derive(Debug)]
pub enum Authorization {
    /// The user was shown the address; the code of the redirect is awaited.
    AwaitingCode(Credentials),
    /// The code was sent in; the token is awaited.
    AwaitingToken(Credentials),
    /// The client is ready to ask for pages.
    Authorized(PlatformClient),
    /// No client will come.
    Failed(MusicExporterError),
}

/// What happened to an authorization.
#[derive(Debug)]
pub enum AuthorizationEvent {
    /// The listener delivered the code.
    Code(ReceivedCode),
    /// The listener ended without a code, for the reason given.
    NoCode(MusicExporterError),
    /// The exchange was answered with the token given.
    Token(String),
    /// The exchange failed, for the reason given.
    NoToken(MusicExporterError),
}

/// What the caller is to do next.
#[derive(Debug)]
pub enum AuthorizationAction {
    /// Listen on the port given, show the user the address given, and
    /// report `Code` or `NoCode`.
    Listen {
        /// The port of the listener.
        port: u32,
        /// The address that the user opens to grant access.
        authorize_url: String,
    },
    /// Send the request given, read the token from the answer, and report
    /// `Token` or `NoToken`.
    Exchange(HttpRequest),
    /// Nothing.
    Nothing,
}

/// The address that the user opens to grant access with `credentials`, where
/// their platform asks for that, or the failure where no address can be made
/// of them.
pub open spec fn authorize_address(credentials: Credentials) -> Option<
    Result<Seq<char>, RequestFailure>,
> {
    match credentials {
        Credentials::Cookie { .. } => None,
        Credentials::Client { id_client, .. } => Some(
            crate::spotify::platform::authorize_address(id_client@),
        ),
        Credentials::ClientWithKey { id_client, .. } => Some(
            Ok(crate::youtube::platform::authorize_address(id_client@)),
        ),
    }
}

/// The request that exchanges `code` for a token with `credentials`.
pub open spec fn exchange_request(credentials: Credentials, code: Seq<char>) -> Option<
    RequestView,
> {
    match credentials {
        Credentials::Cookie { .. } => None,
        Credentials::Client { id_client, id_client_secret } => Some(
            crate::spotify::platform::token_request_view(id_client@, id_client_secret@, code),
        ),
        Credentials::ClientWithKey { id_client, id_client_secret, .. } => Some(
            crate::youtube::platform::token_request_view(id_client@, id_client_secret@, code),
        ),
    }
}

/// The error of an authorization whose listener gave no code: "Failed to get
/// the code", caused by what the listener ended with.
pub open spec fn no_code(cause: ErrorView) -> ErrorView {
    ErrorView {
        message: "Failed to get the code"@,
        kind: ErrorKind::Authorization,
        source: Some(error_text(cause)),
    }
}

/// What an `Authorization` holds.
pub ghost enum AuthorizationView {
    AwaitingCode(Credentials),
    AwaitingToken(Credentials),
    Authorized(PlatformClient),
    Failed(ErrorView),
}

impl View for Authorization {
    type V = AuthorizationView;

    open spec fn view(&self) -> AuthorizationView {
        match self {
            Authorization::AwaitingCode(c) => AuthorizationView::AwaitingCode(*c),
            Authorization::AwaitingToken(c) => AuthorizationView::AwaitingToken(*c),
            Authorization::Authorized(client) => AuthorizationView::Authorized(*client),
            Authorization::Failed(e) => AuthorizationView::Failed(e@),
        }
    }
}

/// What an `AuthorizationEvent` holds.
pub ghost enum AuthorizationEventView {
    Code(Seq<char>),
    NoCode(ErrorView),
    Token(String),
    NoToken(ErrorView),
}

impl View for AuthorizationEvent {
    type V = AuthorizationEventView;

    open spec fn view(&self) -> AuthorizationEventView {
        match self {
            AuthorizationEvent::Code(c) => AuthorizationEventView::Code(c.code@),
            AuthorizationEvent::NoCode(e) => AuthorizationEventView::NoCode(e@),
            AuthorizationEvent::Token(t) => AuthorizationEventView::Token(*t),
            AuthorizationEvent::NoToken(e) => AuthorizationEventView::NoToken(e@),
        }
    }
}

/// What an `AuthorizationAction` holds.
pub ghost enum AuthorizationActionView {
    Listen { port: u32, authorize_url: Seq<char> },
    Exchange(RequestView),
    Nothing,
}

impl View for AuthorizationAction {
    type V = AuthorizationActionView;

    open spec fn view(&self) -> AuthorizationActionView {
        match self {
            AuthorizationAction::Listen { port, authorize_url } => AuthorizationActionView::Listen {
                port: *port,
                authorize_url: authorize_url@,
            },
            AuthorizationAction::Exchange(request) => AuthorizationActionView::Exchange(request@),
            AuthorizationAction::Nothing => AuthorizationActionView::Nothing,
        }
    }
}

/// The client that holds `token`, for the platform of `credentials`. A
/// cookie makes its client without a token.
pub open spec fn authorized_client(credentials: Credentials, token: String) -> PlatformClient {
    match credentials {
        Credentials::Cookie { cookie, user_id } => PlatformClient::Deezer(
            DeezerPlatform { cookie, user_id },
        ),
        Credentials::Client { .. } => PlatformClient::Spotify(
            SpotifyPlatform { authorization: Some(token) },
        ),
        Credentials::ClientWithKey { api_key, playlist_id, .. } => PlatformClient::Youtube(
            YoutubePlatform { api_key: Some(api_key), authorization: Some(token), playlist_id },
        ),
    }
}

/// The authorization ended: the client is there, or none will come.
pub open spec fn ended(s: AuthorizationView) -> bool {
    s is Authorized || s is Failed
}

/// An authorization with `credentials` as it begins, and what is to be done
/// first. A cookie authorizes at once; the other credentials need a code,
/// for which the user is shown an address while the listener waits on the
/// port 8000. Where no address can be made, the authorization fails at once.
pub open spec fn begun(
    credentials: Credentials,
    r: (AuthorizationView, AuthorizationActionView),
) -> bool {
    match authorize_address(credentials) {
        None => match credentials {
            Credentials::Cookie { cookie, user_id } => r == (
                AuthorizationView::Authorized(
                    PlatformClient::Deezer(DeezerPlatform { cookie, user_id }),
                ),
                AuthorizationActionView::Nothing,
            ),
            _ => false,
        },
        Some(Ok(address)) => r == (
            AuthorizationView::AwaitingCode(credentials),
            AuthorizationActionView::Listen { port: 8000, authorize_url: address },
        ),
        Some(Err(failure)) => r.1 is Nothing && r.0 is Failed && is_failure(
            r.0->Failed_0,
            failure,
        ),
    }
}

/// The authorization after `event` happened in the state `s`, and what is to
/// be done then.
///
/// A code that comes while one is awaited is sent in for a token, and a
/// token that comes while one is awaited makes the client. A failure of
/// either step ends the authorization. What its state does not await
/// changes nothing.
pub open spec fn stepped(s: AuthorizationView, event: AuthorizationEventView) -> (
    AuthorizationView,
    AuthorizationActionView,
) {
    match (s, event) {
        (AuthorizationView::AwaitingCode(credentials), AuthorizationEventView::Code(code)) => {
            match exchange_request(credentials, code) {
                Some(request) => (
                    AuthorizationView::AwaitingToken(credentials),
                    AuthorizationActionView::Exchange(request),
                ),
                None => (s, AuthorizationActionView::Nothing),
            }
        },
        (AuthorizationView::AwaitingCode(_), AuthorizationEventView::NoCode(cause)) => (
            AuthorizationView::Failed(no_code(cause)),
            AuthorizationActionView::Nothing,
        ),
        (AuthorizationView::AwaitingToken(credentials), AuthorizationEventView::Token(token)) => (
            AuthorizationView::Authorized(authorized_client(credentials, token)),
            AuthorizationActionView::Nothing,
        ),
        (AuthorizationView::AwaitingToken(_), AuthorizationEventView::NoToken(cause)) => (
            AuthorizationView::Failed(cause),
            AuthorizationActionView::Nothing,
        ),
        _ => (s, AuthorizationActionView::Nothing),
    }
}

impl Authorization {
    /// Begins the authorization of a client with `credentials`.
    pub fn begin(credentials: Credentials) -> (r: (Authorization, AuthorizationAction))
        ensures
            begun(credentials, (r.0@, r.1@)),
    {
        match credentials {
            Credentials::Cookie { cookie, user_id } => (
                Authorization::Authorized(PlatformClient::Deezer(DeezerPlatform { cookie, user_id })),
                AuthorizationAction::Nothing,
            ),
            Credentials::Client { id_client, id_client_secret } => {
                match SpotifyPlatform::authorize_url(id_client.as_str()) {
                    Ok(authorize_url) => (
                        Authorization::AwaitingCode(
                            Credentials::Client { id_client, id_client_secret },
                        ),
                        AuthorizationAction::Listen { port: DEFAULT_PORT, authorize_url },
                    ),
                    Err(e) => (Authorization::Failed(e), AuthorizationAction::Nothing),
                }
            },
            Credentials::ClientWithKey { api_key, id_client, id_client_secret, playlist_id } => {
                let authorize_url = YoutubePlatform::authorize_url(id_client.as_str());
                (
                    Authorization::AwaitingCode(
                        Credentials::ClientWithKey {
                            api_key,
                            id_client,
                            id_client_secret,
                            playlist_id,
                        },
                    ),
                    AuthorizationAction::Listen { port: DEFAULT_PORT, authorize_url },
                )
            },
        }
    }

    /// The request that exchanges `code` for a token with `credentials`.
    fn exchange(credentials: &Credentials, code: &ReceivedCode) -> (r: Option<HttpRequest>)
        ensures
            match r {
                Some(request) => exchange_request(*credentials, code.code@) == Some(request@),
                None => exchange_request(*credentials, code.code@) is None,
            },
    {
        match credentials {
            Credentials::Cookie { .. } => None,
            Credentials::Client { id_client, id_client_secret } => Some(
                SpotifyPlatform::token_request(
                    id_client.as_str(),
                    id_client_secret.as_str(),
                    code.code.as_str(),
                ),
            ),
            Credentials::ClientWithKey { id_client, id_client_secret, .. } => Some(
                YoutubePlatform::token_request(
                    id_client.as_str(),
                    id_client_secret.as_str(),
                    code.code.as_str(),
                ),
            ),
        }
    }

    /// The client that holds `token`, for the platform of `credentials`.
    fn client(credentials: Credentials, token: String) -> (r: PlatformClient)
        ensures
            r == authorized_client(credentials, token),
    {
        match credentials {
            Credentials::Cookie { cookie, user_id } => PlatformClient::Deezer(
                DeezerPlatform { cookie, user_id },
            ),
            Credentials::Client { .. } => PlatformClient::Spotify(
                SpotifyPlatform::with_token(SpotifyAccessToken { access_token: token }),
            ),
            Credentials::ClientWithKey { api_key, playlist_id, .. } => PlatformClient::Youtube(
                YoutubePlatform::with_token(
                    api_key,
                    GoogleAccessToken { access_token: token },
                    playlist_id,
                ),
            ),
        }
    }

    /// Takes in what happened and says what is to be done next.
    pub fn step(self, event: AuthorizationEvent) -> (r: (Authorization, AuthorizationAction))
        ensures
            (r.0@, r.1@) == stepped(self@, event@),
    {
        match (self, event) {
            (Authorization::AwaitingCode(credentials), AuthorizationEvent::Code(code)) => {
                match Self::exchange(&credentials, &code) {
                    Some(request) => (
                        Authorization::AwaitingToken(credentials),
                        AuthorizationAction::Exchange(request),
                    ),
                    None => (Authorization::AwaitingCode(credentials), AuthorizationAction::Nothing),
                }
            },
            (Authorization::AwaitingCode(_), AuthorizationEvent::NoCode(cause)) => {
                let text = cause.text();
                (
                    Authorization::Failed(
                        MusicExporterError {
                            message: "Failed to get the code".to_owned(),
                            kind: ErrorKind::Authorization,
                            source: Some(text),
                        },
                    ),
                    AuthorizationAction::Nothing,
                )
            },
            (Authorization::AwaitingToken(credentials), AuthorizationEvent::Token(token)) => (
                Authorization::Authorized(Self::client(credentials, token)),
                AuthorizationAction::Nothing,
            ),
            (Authorization::AwaitingToken(_), AuthorizationEvent::NoToken(cause)) => (
                Authorization::Failed(cause),
                AuthorizationAction::Nothing,
            ),
            (state, _) => (state, AuthorizationAction::Nothing),
        }
    }

    /// What the authorization ended with: the client, or the reason why
    /// none came. Nothing while a code or a token is awaited.
    pub fn outcome(self) -> (r: Option<Result<PlatformClient, MusicExporterError>>)
        ensures
            match r {
                Some(Ok(client)) => self@ == AuthorizationView::Authorized(client),
                Some(Err(e)) => self@ == AuthorizationView::Failed(e@),
                None => !ended(self@),
            },
    {
        match self {
            Authorization::Authorized(client) => Some(Ok(client)),
            Authorization::Failed(e) => Some(Err(e)),
            _ => None,
        }
    }
}

/// An authorization that ended stays as it is, whatever happens, and asks
/// for nothing more.
pub proof fn lemma_ended_is_final(s: AuthorizationView, event: AuthorizationEventView)
    requires
        ended(s),
    ensures
        stepped(s, event) == (s, AuthorizationActionView::Nothing),
{
}

/// A client that was not there before comes only of a token that came while
/// one was awaited, and it holds that token; a request is sent only for a
/// code that came while one was awaited.
pub proof fn lemma_client_needs_token(s: AuthorizationView, event: AuthorizationEventView)
    requires
        !ended(s),
    ensures
        stepped(s, event).0 is Authorized <==> s is AwaitingToken && event is Token,
        stepped(s, event).0 is Authorized ==> stepped(s, event).0->Authorized_0
            == authorized_client(s->AwaitingToken_0, event->Token_0),
        stepped(s, event).1 is Exchange ==> s is AwaitingCode && event is Code,
        event is NoCode || event is NoToken ==> stepped(s, event).0 is Failed || stepped(
            s,
            event,
        ).0 == s,
{
}

} // verus!
