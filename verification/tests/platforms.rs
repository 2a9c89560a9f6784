use music_exporter::deezer::types::{Album, ApiResponse, Artist, TrackItem};
use music_exporter::errors::ErrorKind;
use music_exporter::http::{HttpRequest, Method};
use music_exporter::pagination::PageCursor;
use music_exporter::platform::{PageBody, Platform};
use music_exporter::spotify::types::{
    PlaylistItem as SpotifyItem, PlaylistItems as SpotifyItems, SpotifyAccessToken, SpotifyAlbum,
    SpotifyArtist, SpotifyExternalUrls, SpotifyImage, TrackPlaylistItem,
};
use music_exporter::youtube::types::{
    APIResponse, Channel, ContentDetails, GoogleAccessToken, PlaylistItem as YoutubeItem,
    PlaylistItems as YoutubeItems, RelatedPlaylists, ResourceIdPlaylistItem, SnippetPlaylistItem,
};
use music_exporter::{
    DeezerPlatform, PlatformClient, PlatformType, SpotifyPlatform, YoutubePlatform,
};

fn pairs(items: &[(&str, &str)]) -> Vec<(String, String)> {
    items
        .iter()
        .map(|(k, v)| (k.to_string(), v.to_string()))
        .collect()
}

fn deezer() -> DeezerPlatform {
    DeezerPlatform::try_new("sid=1".to_string(), "42".to_string()).unwrap()
}

fn track(title: &str, artist: &str) -> TrackItem {
    TrackItem {
        title: title.to_string(),
        link: format!("https://deezer.example/{title}"),
        album: Album {
            title: "Album".to_string(),
            cover: "https://cover.example/a.jpg".to_string(),
        },
        artist: Artist {
            name: artist.to_string(),
        },
    }
}

fn spotify_item(name: &str, artists: &[&str], images: &[&str]) -> SpotifyItem {
    SpotifyItem {
        track: TrackPlaylistItem {
            name: name.to_string(),
            album: SpotifyAlbum {
                release_date: "2020-01-02".to_string(),
                images: images
                    .iter()
                    .map(|u| SpotifyImage { url: u.to_string() })
                    .collect(),
                name: "Album".to_string(),
            },
            artists: artists
                .iter()
                .map(|a| SpotifyArtist {
                    name: a.to_string(),
                })
                .collect(),
            external_urls: SpotifyExternalUrls {
                spotify: "https://open.example/track".to_string(),
            },
        },
    }
}

fn youtube_item(title: &str, channel: Option<&str>, id: &str) -> YoutubeItem {
    YoutubeItem {
        snippet: SnippetPlaylistItem {
            title: title.to_string(),
            published_at: "2021-03-04T05:06:07Z".to_string(),
            video_owner_channel_title: channel.map(str::to_string),
            resource_id: ResourceIdPlaylistItem {
                video_id: id.to_string(),
            },
        },
    }
}

fn youtube() -> YoutubePlatform {
    YoutubePlatform::with_token(
        "KEY".to_string(),
        GoogleAccessToken {
            access_token: "tok".to_string(),
        },
        None,
    )
}

fn plain_get(request: &HttpRequest) {
    assert_eq!(request.method, Method::Get);
    assert!(request.form.is_empty());
}

#[test]
fn deezer_asks_for_pages_of_fifty() {
    let request = deezer().page_request(None).unwrap();
    plain_get(&request);
    assert_eq!(
        request.url,
        "https://api.deezer.com/user/42/tracks?index=0&limit=50"
    );
    assert_eq!(
        request.headers,
        pairs(&[("cookie", "sid=1"), ("Accept", "application/json")])
    );
    assert!(request.query.is_empty());
    let request = deezer().page_request(Some(150)).unwrap();
    assert_eq!(
        request.url,
        "https://api.deezer.com/user/42/tracks?index=150&limit=50"
    );
}

#[test]
fn deezer_reads_the_offset_of_the_next_link() {
    let next = Some("https://api.deezer.com/user/42/tracks?limit=50&index=50".to_string());
    assert_eq!(DeezerPlatform::next_offset(&next).unwrap(), Some(50));
    assert_eq!(DeezerPlatform::next_offset(&None).unwrap(), None);
    let without_index = Some("https://api.deezer.com/user/42/tracks?limit=50".to_string());
    assert_eq!(DeezerPlatform::next_offset(&without_index).unwrap(), None);
    let first_wins = Some("https://api.deezer.com/t?index=7&index=9".to_string());
    assert_eq!(DeezerPlatform::next_offset(&first_wins).unwrap(), Some(7));
}

#[test]
fn deezer_refuses_a_next_link_that_it_cannot_read() {
    let no_query = Some("https://api.deezer.com/user/42/tracks".to_string());
    let e = DeezerPlatform::next_offset(&no_query).unwrap_err();
    assert_eq!(e.message, "Cannot get query");
    assert_eq!(e.kind, ErrorKind::Parse);
    let no_number = Some("https://api.deezer.com/t?index=abc".to_string());
    assert_eq!(
        DeezerPlatform::next_offset(&no_number).unwrap_err().kind,
        ErrorKind::Parse
    );
    let too_large = Some("https://api.deezer.com/t?index=18446744073709551616".to_string());
    assert_eq!(
        DeezerPlatform::next_offset(&too_large).unwrap_err().kind,
        ErrorKind::Parse
    );
    let no_url = Some("tracks?index=5".to_string());
    assert_eq!(
        DeezerPlatform::next_offset(&no_url).unwrap_err().kind,
        ErrorKind::Parse
    );
}

#[test]
fn deezer_offset_of_pairs_takes_the_first_index() {
    assert_eq!(
        DeezerPlatform::offset_of_pairs(&pairs(&[("limit", "50"), ("index", "100")])).unwrap(),
        Some(100)
    );
    assert_eq!(
        DeezerPlatform::offset_of_pairs(&pairs(&[("Index", "100")])).unwrap(),
        None
    );
    assert!(DeezerPlatform::offset_of_pairs(&pairs(&[("index", "")])).is_err());
    assert!(DeezerPlatform::offset_of_pairs(&pairs(&[("index", "x"), ("index", "1")])).is_err());
}

#[test]
fn deezer_maps_tracks_to_records() {
    let response = ApiResponse {
        next: Some("https://api.deezer.com/user/42/tracks?index=50".to_string()),
        data: vec![track("One", "A"), track("Two", "B")],
    };
    let page = DeezerPlatform::read_page(&response).unwrap();
    assert!(matches!(page.next, Some(PageCursor::Offset(50))));
    assert_eq!(page.items.len(), 2);
    let first = &page.items[0];
    assert_eq!(first.title, "One");
    assert_eq!(first.author, "A");
    assert_eq!(first.url.as_deref(), Some("https://deezer.example/One"));
    assert_eq!(
        first.thumbnail.as_deref(),
        Some("https://cover.example/a.jpg")
    );
    assert_eq!(first.date, None);
    assert_eq!(first.album.as_deref(), Some("Album"));
    assert_eq!(page.items[1].title, "Two");
    let last = ApiResponse {
        next: None,
        data: vec![],
    };
    let page = DeezerPlatform::read_page(&last).unwrap();
    assert!(page.next.is_none());
    assert!(page.items.is_empty());
}

#[test]
fn deezer_fails_the_page_whose_next_link_is_bad() {
    let response = ApiResponse {
        next: Some("nonsense".to_string()),
        data: vec![track("One", "A")],
    };
    assert_eq!(
        DeezerPlatform::read_page(&response).unwrap_err().kind,
        ErrorKind::Parse
    );
}

#[test]
fn spotify_authorize_url_names_the_client() {
    assert_eq!(
        SpotifyPlatform::authorize_url("my id").unwrap(),
        "https://accounts.spotify.com/authorize?client_id=my+id&response_type=code&redirect_uri=http%3A%2F%2Flocalhost%3A8000&scope=playlist-read-private%2Cuser-library-read"
    );
}

#[test]
fn spotify_exchanges_the_code_with_basic_authorization() {
    let request = SpotifyPlatform::token_request("id", "secret", "the-code");
    assert_eq!(request.method, Method::Post);
    assert_eq!(request.url, "https://accounts.spotify.com/api/token");
    assert_eq!(
        request.headers,
        pairs(&[
            ("Accept", "application/json"),
            ("Content-Type", "application/x-www-form-urlencoded"),
            ("Authorization", "Basic aWQ6c2VjcmV0"),
        ])
    );
    assert_eq!(
        request.form,
        pairs(&[
            ("code", "the-code"),
            ("redirect_uri", "http://localhost:8000"),
            ("grant_type", "authorization_code"),
        ])
    );
    assert!(request.query.is_empty());
}

#[test]
fn spotify_asks_with_its_token() {
    let client = SpotifyPlatform::with_token(SpotifyAccessToken {
        access_token: "tok".to_string(),
    });
    let request = client.page_request(None).unwrap();
    plain_get(&request);
    assert_eq!(
        request.url,
        "https://api.spotify.com/v1/me/tracks?limit=50&offset=0"
    );
    assert_eq!(
        request.headers,
        pairs(&[("Authorization", "Bearer tok"), ("Accept", "application/json")])
    );
    let request = client.page_request(Some(100)).unwrap();
    assert_eq!(
        request.url,
        "https://api.spotify.com/v1/me/tracks?limit=50&offset=100"
    );
}

#[test]
fn spotify_without_a_token_cannot_ask() {
    let e = SpotifyPlatform::new().page_request(None).unwrap_err();
    assert_eq!(e.kind, ErrorKind::Config);
    assert!(SpotifyPlatform::new().authorization.is_none());
}

#[test]
fn spotify_maps_items_to_records() {
    let response = SpotifyItems {
        next: Some("https://api.spotify.com/v1/me/tracks?offset=150".to_string()),
        offset: 100,
        items: vec![spotify_item("Song", &["First", "Second"], &["big", "small"])],
    };
    let page = SpotifyPlatform::read_page(&response).unwrap();
    assert!(matches!(page.next, Some(PageCursor::Offset(150))));
    let m = &page.items[0];
    assert_eq!(m.title, "Song");
    assert_eq!(m.author, "First");
    assert_eq!(m.thumbnail.as_deref(), Some("big"));
    assert_eq!(m.url.as_deref(), Some("https://open.example/track"));
    assert_eq!(m.date.as_deref(), Some("2020-01-02"));
    assert_eq!(m.album.as_deref(), Some("Album"));
    let last = SpotifyItems {
        next: None,
        offset: 150,
        items: vec![],
    };
    assert!(SpotifyPlatform::read_page(&last).unwrap().next.is_none());
}

#[test]
fn spotify_goes_on_from_the_offset_of_the_page() {
    let response = SpotifyItems {
        next: Some("anything".to_string()),
        offset: 0,
        items: vec![],
    };
    assert!(matches!(
        SpotifyPlatform::read_page(&response).unwrap().next,
        Some(PageCursor::Offset(50))
    ));
}

#[test]
fn spotify_refuses_items_that_lack_what_a_record_needs() {
    let no_artist = SpotifyItems {
        next: None,
        offset: 0,
        items: vec![
            spotify_item("ok", &["a"], &["i"]),
            spotify_item("bad", &[], &["i"]),
        ],
    };
    assert_eq!(
        SpotifyPlatform::read_page(&no_artist).unwrap_err().kind,
        ErrorKind::Parse
    );
    let no_image = spotify_item("bad", &["a"], &[]);
    assert_eq!(
        SpotifyPlatform::item_to_music(&no_image).unwrap_err().kind,
        ErrorKind::Parse
    );
    let overflow = SpotifyItems {
        next: Some("x".to_string()),
        offset: u64::MAX - 49,
        items: vec![],
    };
    assert_eq!(
        SpotifyPlatform::read_page(&overflow).unwrap_err().kind,
        ErrorKind::Parse
    );
    let at_the_edge = SpotifyItems {
        next: Some("x".to_string()),
        offset: u64::MAX - 50,
        items: vec![],
    };
    assert!(matches!(
        SpotifyPlatform::read_page(&at_the_edge).unwrap().next,
        Some(PageCursor::Offset(u64::MAX))
    ));
}

#[test]
fn deezer_tells_a_failed_status() {
    assert!(DeezerPlatform::check_status(200, "200 OK").is_ok());
    let e = DeezerPlatform::check_status(503, "503 Service Unavailable").unwrap_err();
    assert_eq!(
        e.message,
        "Failed to get response for the playlist items 503 Service Unavailable"
    );
    assert_eq!(e.kind, ErrorKind::Transport);
    let client = PlatformClient::Deezer(deezer());
    assert!(client.check_status(200, "200 OK").is_ok());
    assert!(client.check_status(204, "204 No Content").is_err());
}

#[test]
fn spotify_and_youtube_tell_a_failed_status() {
    assert!(SpotifyPlatform::check_status(200, "200 OK").is_ok());
    let e = SpotifyPlatform::check_status(401, "401 Unauthorized").unwrap_err();
    assert_eq!(
        e.message,
        "Failed to get response for the playlist items 401 Unauthorized"
    );
    assert_eq!(e.kind, ErrorKind::Transport);
    assert!(YoutubePlatform::check_status(200, "200 OK").is_ok());
    let e = YoutubePlatform::check_status(403, "403 Forbidden").unwrap_err();
    assert_eq!(
        e.message,
        "Failed to get response for the playlist items 403 Forbidden"
    );
    assert!(YoutubePlatform::check_liked_status(200, "200 OK").is_ok());
    let e = YoutubePlatform::check_liked_status(500, "500 Internal Server Error").unwrap_err();
    assert_eq!(
        e.message,
        "Failed to get of the liked playlist 500 Internal Server Error"
    );
}

#[test]
fn youtube_authorize_url_is_written_out() {
    assert_eq!(
        YoutubePlatform::authorize_url("client"),
        "https://accounts.google.com/o/oauth2/v2/auth?client_id=client&redirect_uri=http://localhost:8000&scope=https://www.googleapis.com/auth/youtube.readonly&response_type=code"
    );
}

#[test]
fn youtube_exchanges_the_code_in_a_form() {
    let request = YoutubePlatform::token_request("id", "secret", "the-code");
    assert_eq!(request.method, Method::Post);
    assert_eq!(request.url, "https://oauth2.googleapis.com/token");
    assert_eq!(request.headers, pairs(&[("Accept", "application/json")]));
    assert_eq!(
        request.form,
        pairs(&[
            ("code", "the-code"),
            ("client_id", "id"),
            ("client_secret", "secret"),
            ("redirect_uri", "http://localhost:8000"),
            ("grant_type", "authorization_code"),
        ])
    );
}

#[test]
fn youtube_looks_up_the_liked_playlist() {
    let request = youtube().liked_playlist_request().unwrap();
    plain_get(&request);
    assert_eq!(
        request.url,
        "https://youtube.googleapis.com/youtube/v3/channels?part=snippet%2CcontentDetails%2Cstatistics&mine=true&key=KEY"
    );
    assert_eq!(
        request.headers,
        pairs(&[("Authorization", "Bearer tok"), ("Accept", "application/json")])
    );
    let response = APIResponse {
        items: vec![
            Channel {
                content_details: ContentDetails {
                    related_playlists: RelatedPlaylists {
                        likes: "LL1".to_string(),
                    },
                },
            },
            Channel {
                content_details: ContentDetails {
                    related_playlists: RelatedPlaylists {
                        likes: "LL2".to_string(),
                    },
                },
            },
        ],
    };
    assert_eq!(YoutubePlatform::read_liked_playlist(&response).unwrap(), "LL1");
    let e = YoutubePlatform::read_liked_playlist(&APIResponse { items: vec![] }).unwrap_err();
    assert_eq!(e.message, "Cannot get liked playlist");
    assert_eq!(e.kind, ErrorKind::Parse);
}

#[test]
fn youtube_asks_for_the_items_of_a_playlist() {
    let request = youtube().page_request("PL 1", None).unwrap();
    plain_get(&request);
    assert_eq!(
        request.url,
        "https://youtube.googleapis.com/youtube/v3/playlistItems?part=snippet%2CcontentDetails&maxResults=50&playlistId=PL+1&key=KEY"
    );
    assert_eq!(request.query, pairs(&[("pageToken", "")]));
    let token = "NEXT".to_string();
    let request = youtube().page_request("PL", Some(&token)).unwrap();
    assert_eq!(request.query, pairs(&[("pageToken", "NEXT")]));
}

#[test]
fn youtube_without_credentials_cannot_ask() {
    let empty = YoutubePlatform::new();
    assert!(empty.api_key.is_none() && empty.authorization.is_none());
    assert!(empty.custom_playlist().is_none());
    assert_eq!(
        empty.liked_playlist_request().unwrap_err().kind,
        ErrorKind::Config
    );
    assert_eq!(
        empty.page_request("PL", None).unwrap_err().kind,
        ErrorKind::Config
    );
}

#[test]
fn youtube_maps_items_to_records() {
    let response = YoutubeItems {
        next_page_token: Some("NEXT".to_string()),
        items: vec![
            youtube_item("Song (Official Video)", Some("Band - Topic"), "abc"),
            youtube_item("Other [live]", None, "def"),
        ],
    };
    let page = YoutubePlatform::read_page(&response);
    match &page.next {
        Some(PageCursor::Token(t)) => assert_eq!(t, "NEXT"),
        other => panic!("unexpected cursor {:?}", other),
    }
    let m = &page.items[0];
    assert_eq!(m.title, "Song");
    assert_eq!(m.author, "Band");
    assert_eq!(
        m.thumbnail.as_deref(),
        Some("https://img.youtube.com/vi/abc/default.jpg")
    );
    assert_eq!(m.url.as_deref(), Some("https://www.youtube.com/watch?v=abc"));
    assert_eq!(m.date.as_deref(), Some("2021-03-04T05:06:07Z"));
    assert_eq!(m.album, None);
    let n = &page.items[1];
    assert_eq!(n.title, "Other [live]");
    assert_eq!(n.author, "Unknown");
    let last = YoutubeItems {
        next_page_token: None,
        items: vec![],
    };
    assert!(YoutubePlatform::read_page(&last).next.is_none());
}

#[test]
fn youtube_author_loses_the_topic_suffix() {
    assert_eq!(
        YoutubePlatform::clean_author(&Some("Band - Topic".to_string())),
        "Band"
    );
    assert_eq!(
        YoutubePlatform::clean_author(&Some("Band".to_string())),
        "Band"
    );
    assert_eq!(YoutubePlatform::clean_author(&None), "Unknown");
}

#[test]
fn clients_speak_through_one_interface() {
    let d = PlatformClient::Deezer(deezer());
    assert_eq!(d.platform_type(), PlatformType::Deezer);
    assert_eq!(
        d.fetch_request(Some(&PageCursor::Offset(50))).unwrap().url,
        "https://api.deezer.com/user/42/tracks?index=50&limit=50"
    );
    let s = PlatformClient::Spotify(SpotifyPlatform::with_token(SpotifyAccessToken {
        access_token: "tok".to_string(),
    }));
    assert_eq!(s.platform_type(), PlatformType::Spotify);
    assert_eq!(
        s.fetch_request(None).unwrap().url,
        "https://api.spotify.com/v1/me/tracks?limit=50&offset=0"
    );
    let y = PlatformClient::Youtube(youtube().with_playlist("PL".to_string()));
    assert_eq!(y.platform_type(), PlatformType::Youtube);
    let request = y
        .fetch_request(Some(&PageCursor::Token("T".to_string())))
        .unwrap();
    assert_eq!(request.query, pairs(&[("pageToken", "T")]));
    assert_eq!(deezer().platform_type(), PlatformType::Deezer);
}

#[test]
fn a_cursor_of_another_platform_is_refused() {
    let token = PageCursor::Token("T".to_string());
    let offset = PageCursor::Offset(5);
    assert_eq!(
        deezer().fetch_request(Some(&token)).unwrap_err().kind,
        ErrorKind::Parse
    );
    let y = youtube().with_playlist("PL".to_string());
    assert_eq!(
        y.fetch_request(Some(&offset)).unwrap_err().kind,
        ErrorKind::Parse
    );
    assert_eq!(
        youtube().fetch_request(None).unwrap_err().kind,
        ErrorKind::Config
    );
}

#[test]
fn an_answer_of_another_platform_is_refused() {
    let client = PlatformClient::Deezer(deezer());
    let body = PageBody::Youtube(YoutubeItems {
        next_page_token: None,
        items: vec![],
    });
    assert_eq!(client.read_page(&body).unwrap_err().kind, ErrorKind::Parse);
    let body = PageBody::Deezer(ApiResponse {
        next: None,
        data: vec![track("One", "A")],
    });
    assert_eq!(client.read_page(&body).unwrap().items.len(), 1);
}

#[test]
fn only_youtube_without_a_playlist_looks_its_list_up() {
    assert!(PlatformClient::Deezer(deezer()).lookup_request().is_none());
    let with_playlist = PlatformClient::Youtube(youtube().with_playlist("PL".to_string()));
    assert!(with_playlist.lookup_request().is_none());
    let client = PlatformClient::Youtube(youtube());
    let request = client.lookup_request().unwrap().unwrap();
    assert!(request
        .url
        .starts_with("https://youtube.googleapis.com/youtube/v3/channels?"));
    assert!(client.check_lookup_status(200, "200 OK").is_ok());
    assert_eq!(
        client
            .check_lookup_status(404, "404 Not Found")
            .unwrap_err()
            .message,
        "Failed to get of the liked playlist 404 Not Found"
    );
    let answer = APIResponse {
        items: vec![Channel {
            content_details: ContentDetails {
                related_playlists: RelatedPlaylists {
                    likes: "LL".to_string(),
                },
            },
        }],
    };
    match client.with_lookup(&answer).unwrap() {
        PlatformClient::Youtube(set) => {
            assert_eq!(set.playlist_id.as_deref(), Some("LL"));
            assert_eq!(set.api_key.as_deref(), Some("KEY"));
        }
        other => panic!("unexpected client {:?}", other),
    }
    let e = PlatformClient::Youtube(youtube())
        .with_lookup(&APIResponse { items: vec![] })
        .unwrap_err();
    assert_eq!(e.message, "Cannot get liked playlist");
    match with_playlist.with_lookup(&answer).unwrap() {
        PlatformClient::Youtube(kept) => assert_eq!(kept.playlist_id.as_deref(), Some("PL")),
        other => panic!("unexpected client {:?}", other),
    }
}

#[test]
fn a_user_id_beyond_the_limit_is_refused() {
    let client = DeezerPlatform::try_new("c".to_string(), "u".repeat(2_000_000)).unwrap();
    let e = client.page_request(None).unwrap_err();
    assert_eq!(e.message, "The address is too long");
    assert_eq!(e.kind, ErrorKind::Parse);
}
