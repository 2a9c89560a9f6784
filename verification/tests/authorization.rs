use music_exporter::authorization::{
    Authorization, AuthorizationAction, AuthorizationEvent, Credentials,
};
use music_exporter::errors::{ErrorKind, MusicExporterError};
use music_exporter::http::Method;
use music_exporter::oauth::ReceivedCode;
use music_exporter::{PlatformClient, PlatformType};

fn strings(items: &[&str]) -> Vec<String> {
    items.iter().map(|s| s.to_string()).collect()
}

fn spotify() -> Credentials {
    Credentials::from_values(PlatformType::Spotify, strings(&["id", "secret"]), None).unwrap()
}

fn youtube() -> Credentials {
    Credentials::from_values(
        PlatformType::Youtube,
        strings(&["KEY", "id", "secret"]),
        Some("PL".to_string()),
    )
    .unwrap()
}

fn code(text: &str) -> AuthorizationEvent {
    AuthorizationEvent::Code(ReceivedCode {
        code: text.to_string(),
    })
}

#[test]
fn each_platform_names_its_variables() {
    let names = |platform| -> Vec<&'static str> {
        Credentials::variables(platform)
            .iter()
            .map(|v| v.name)
            .collect()
    };
    assert_eq!(
        names(PlatformType::Deezer),
        vec!["MUSIC_EXPORTER_DEEZER_COOKIE", "MUSIC_EXPORTER_DEEZER_USER_ID"]
    );
    assert_eq!(
        names(PlatformType::Spotify),
        vec![
            "MUSIC_EXPORTER_SPOTIFY_ID_CLIENT",
            "MUSIC_EXPORTER_SPOTIFY_ID_CLIENT_SECRET"
        ]
    );
    assert_eq!(
        names(PlatformType::Youtube),
        vec![
            "MUSIC_EXPORTER_YOUTUBE_API_KEY",
            "MUSIC_EXPORTER_YOUTUBE_ID_CLIENT",
            "MUSIC_EXPORTER_YOUTUBE_ID_CLIENT_SECRET"
        ]
    );
    assert_eq!(
        Credentials::variables(PlatformType::Deezer)[0].prompt,
        "Please enter your deezer cookie"
    );
}

#[test]
fn credentials_take_the_values_in_order() {
    match Credentials::from_values(PlatformType::Deezer, strings(&["c", "u"]), None).unwrap() {
        Credentials::Cookie { cookie, user_id } => {
            assert_eq!(cookie, "c");
            assert_eq!(user_id, "u");
        }
        other => panic!("unexpected credentials {:?}", other),
    }
    match youtube() {
        Credentials::ClientWithKey {
            api_key,
            id_client,
            id_client_secret,
            playlist_id,
        } => {
            assert_eq!(api_key, "KEY");
            assert_eq!(id_client, "id");
            assert_eq!(id_client_secret, "secret");
            assert_eq!(playlist_id.as_deref(), Some("PL"));
        }
        other => panic!("unexpected credentials {:?}", other),
    }
    assert_eq!(spotify().platform_type(), PlatformType::Spotify);
}

#[test]
fn a_missing_credential_is_a_config_error() {
    for (platform, values) in [
        (PlatformType::Deezer, strings(&["c"])),
        (PlatformType::Deezer, strings(&[])),
        (PlatformType::Spotify, strings(&["a", "b", "c"])),
        (PlatformType::Youtube, strings(&["a", "b"])),
    ] {
        let e = Credentials::from_values(platform, values, None).unwrap_err();
        assert_eq!(e.kind, ErrorKind::Config);
        assert_eq!(e.message, "Missing a required credential");
    }
}

#[test]
fn a_cookie_authorizes_at_once() {
    let credentials =
        Credentials::from_values(PlatformType::Deezer, strings(&["c", "u"]), None).unwrap();
    let (state, action) = Authorization::begin(credentials);
    assert!(matches!(action, AuthorizationAction::Nothing));
    match state.outcome() {
        Some(Ok(PlatformClient::Deezer(client))) => {
            assert_eq!(client.cookie, "c");
            assert_eq!(client.user_id, "u");
        }
        other => panic!("unexpected outcome {:?}", other),
    }
}

#[test]
fn spotify_is_authorized_by_code_and_token() {
    let (state, action) = Authorization::begin(spotify());
    match action {
        AuthorizationAction::Listen {
            port,
            authorize_url,
        } => {
            assert_eq!(port, 8000);
            assert!(authorize_url.starts_with("https://accounts.spotify.com/authorize?client_id=id&"));
        }
        other => panic!("unexpected action {:?}", other),
    }
    assert!(matches!(state, Authorization::AwaitingCode(_)));
    let (state, action) = state.step(code("abc123"));
    match action {
        AuthorizationAction::Exchange(request) => {
            assert_eq!(request.method, Method::Post);
            assert_eq!(request.url, "https://accounts.spotify.com/api/token");
            assert_eq!(request.form[0], ("code".to_string(), "abc123".to_string()));
        }
        other => panic!("unexpected action {:?}", other),
    }
    assert!(matches!(state, Authorization::AwaitingToken(_)));
    let (state, action) = state.step(AuthorizationEvent::Token("tok".to_string()));
    assert!(matches!(action, AuthorizationAction::Nothing));
    match state.outcome() {
        Some(Ok(PlatformClient::Spotify(client))) => {
            assert_eq!(client.authorization.as_deref(), Some("tok"))
        }
        other => panic!("unexpected outcome {:?}", other),
    }
}

#[test]
fn youtube_is_authorized_with_its_key_and_playlist() {
    let (state, action) = Authorization::begin(youtube());
    match action {
        AuthorizationAction::Listen { authorize_url, .. } => assert_eq!(
            authorize_url,
            "https://accounts.google.com/o/oauth2/v2/auth?client_id=id&redirect_uri=http://localhost:8000&scope=https://www.googleapis.com/auth/youtube.readonly&response_type=code"
        ),
        other => panic!("unexpected action {:?}", other),
    }
    let (state, action) = state.step(code("c"));
    match action {
        AuthorizationAction::Exchange(request) => {
            assert_eq!(request.url, "https://oauth2.googleapis.com/token")
        }
        other => panic!("unexpected action {:?}", other),
    }
    let (state, _) = state.step(AuthorizationEvent::Token("tok".to_string()));
    match state.outcome() {
        Some(Ok(PlatformClient::Youtube(client))) => {
            assert_eq!(client.api_key.as_deref(), Some("KEY"));
            assert_eq!(client.authorization.as_deref(), Some("tok"));
            assert_eq!(client.playlist_id.as_deref(), Some("PL"));
        }
        other => panic!("unexpected outcome {:?}", other),
    }
}

#[test]
fn a_listener_without_a_code_fails_the_authorization() {
    let (state, _) = Authorization::begin(spotify());
    let cause = MusicExporterError::of_kind(ErrorKind::Authorization, "Missing authorization code");
    let (state, action) = state.step(AuthorizationEvent::NoCode(cause));
    assert!(matches!(action, AuthorizationAction::Nothing));
    match state.outcome() {
        Some(Err(e)) => {
            assert_eq!(e.message, "Failed to get the code");
            assert_eq!(e.kind, ErrorKind::Authorization);
            assert_eq!(
                e.text(),
                "Failed to get the code - caused by: Missing authorization code"
            );
        }
        other => panic!("unexpected outcome {:?}", other),
    }
}

#[test]
fn a_failed_exchange_fails_the_authorization() {
    let (state, _) = Authorization::begin(spotify());
    let (state, _) = state.step(code("c"));
    let cause = MusicExporterError::of_kind(ErrorKind::Transport, "connection refused");
    let (state, _) = state.step(AuthorizationEvent::NoToken(cause));
    match state.outcome() {
        Some(Err(e)) => {
            assert_eq!(e.message, "connection refused");
            assert_eq!(e.kind, ErrorKind::Transport);
        }
        other => panic!("unexpected outcome {:?}", other),
    }
}

#[test]
fn an_authorization_ignores_what_it_does_not_await() {
    let (state, _) = Authorization::begin(spotify());
    let (state, action) = state.step(AuthorizationEvent::Token("early".to_string()));
    assert!(matches!(state, Authorization::AwaitingCode(_)));
    assert!(matches!(action, AuthorizationAction::Nothing));
    assert!(state.outcome().is_none());
    let (state, _) = Authorization::begin(spotify());
    let (state, _) = state.step(code("c"));
    let (state, _) = state.step(AuthorizationEvent::Token("tok".to_string()));
    let (state, action) = state.step(AuthorizationEvent::NoToken(MusicExporterError::new("late")));
    assert!(matches!(action, AuthorizationAction::Nothing));
    assert!(matches!(state.outcome(), Some(Ok(_))));
}
