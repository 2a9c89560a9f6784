use music_exporter::errors::ErrorKind;
use music_exporter::http::{
    bearer, build_url, expect_ok, first_value, last_value, pair, pairs_of_query, query_of_url,
    to_base_64, MAX_URL_BYTES,
};

fn pairs(items: &[(&str, &str)]) -> Vec<(String, String)> {
    items.iter().map(|(k, v)| pair(k, v)).collect()
}

#[test]
fn base64_encodes_with_the_standard_alphabet_and_padding() {
    assert_eq!(to_base_64(""), "");
    assert_eq!(to_base_64("f"), "Zg==");
    assert_eq!(to_base_64("fo"), "Zm8=");
    assert_eq!(to_base_64("foo"), "Zm9v");
    assert_eq!(to_base_64("id:secret"), "aWQ6c2VjcmV0");
    assert_eq!(to_base_64("\u{fb}\u{ff}"), "w7vDvw==");
}

#[test]
fn build_url_appends_the_pairs_encoded() {
    let url = build_url(
        "https://example.net/path",
        &pairs(&[("a", "1"), ("b c", "d&e"), ("é", "/")]),
    )
    .unwrap();
    assert_eq!(url, "https://example.net/path?a=1&b+c=d%26e&%C3%A9=%2F");
    let url = build_url("https://example.net/path?x=y", &pairs(&[("a", "1")])).unwrap();
    assert_eq!(url, "https://example.net/path?x=y&a=1");
}

#[test]
fn build_url_refuses_what_is_no_url() {
    let e = build_url("not a url", &pairs(&[("a", "1")])).unwrap_err();
    assert_eq!(e.kind, ErrorKind::Parse);
    assert_eq!(e.source.as_deref(), Some(e.message.as_str()));
    assert!(!e.message.is_empty());
    assert!(build_url("", &pairs(&[])).is_err());
}

#[test]
fn query_of_url_gives_the_query_string() {
    assert_eq!(
        query_of_url("https://api.example.net/tracks?index=50&limit=50").unwrap(),
        Some("index=50&limit=50".to_string())
    );
    assert_eq!(query_of_url("https://api.example.net/tracks").unwrap(), None);
    assert_eq!(
        query_of_url("https://api.example.net/tracks?").unwrap(),
        Some(String::new())
    );
    assert_eq!(
        query_of_url("https://api.example.net/?a=b#c").unwrap(),
        Some("a=b".to_string())
    );
    assert_eq!(
        query_of_url("/relative?a=b").unwrap_err().kind,
        ErrorKind::Parse
    );
}

#[test]
fn pairs_of_query_decodes_names_and_values() {
    assert_eq!(
        pairs_of_query("a=1&b+c=d%26e&&f&=g"),
        pairs(&[("a", "1"), ("b c", "d&e"), ("f", ""), ("", "g")])
    );
    assert_eq!(pairs_of_query(""), pairs(&[]));
}

#[test]
fn first_and_last_value_go_by_the_name() {
    let list = pairs(&[("a", "1"), ("b", "2"), ("a", "3")]);
    assert_eq!(first_value(&list, "a").map(String::as_str), Some("1"));
    assert_eq!(last_value(&list, "a").map(String::as_str), Some("3"));
    assert_eq!(first_value(&list, "b").map(String::as_str), Some("2"));
    assert_eq!(last_value(&list, "b").map(String::as_str), Some("2"));
    assert!(first_value(&list, "c").is_none());
    assert!(last_value(&list, "c").is_none());
    assert!(first_value(&pairs(&[]), "a").is_none());
}

#[test]
fn only_the_status_200_is_a_success() {
    assert!(expect_ok(200, "200 OK", "Failed ").is_ok());
    for status in [201u16, 204, 301, 400, 401, 404, 500, 0] {
        let e = expect_ok(status, "404 Not Found", "Failed to get ").unwrap_err();
        assert_eq!(e.kind, ErrorKind::Transport);
        assert_eq!(e.message, "Failed to get 404 Not Found");
    }
}

#[test]
fn bearer_writes_the_header_value() {
    assert_eq!(bearer("tok"), "Bearer tok");
}

#[test]
fn texts_beyond_the_limit_are_refused() {
    let base = "https://example.net/";
    let room = MAX_URL_BYTES - base.len();
    let fits = "a".repeat(room - 1);
    assert!(build_url(base, &pairs(&[("k", &fits)])).is_ok());
    let too_long = "a".repeat(room);
    let e = build_url(base, &pairs(&[("k", &too_long)])).unwrap_err();
    assert_eq!(e.message, "The address is too long");
    assert_eq!(e.kind, ErrorKind::Parse);
    assert!(e.source.is_none());
    let e = build_url(base, &pairs(&[(&too_long, ""), ("k", "v")])).unwrap_err();
    assert_eq!(e.message, "The address is too long");
    // bytes count, not characters
    let wide = "é".repeat(room / 2);
    assert!(build_url(base, &pairs(&[("", &wide)])).is_ok());
    let wide = "é".repeat(room / 2 + 1);
    assert!(build_url(base, &pairs(&[("", &wide)])).is_err());
    let long_base = format!("https://example.net/{}", "a".repeat(MAX_URL_BYTES));
    assert_eq!(
        build_url(&long_base, &pairs(&[])).unwrap_err().message,
        "The address is too long"
    );
    assert_eq!(
        query_of_url(&long_base).unwrap_err().message,
        "The address is too long"
    );
    let at_the_limit = format!("https://example.net/?{}", "a".repeat(MAX_URL_BYTES - 21));
    assert_eq!(at_the_limit.len(), MAX_URL_BYTES);
    assert!(query_of_url(&at_the_limit).is_ok());
}
