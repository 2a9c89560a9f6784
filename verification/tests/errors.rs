use music_exporter::errors::{ErrorKind, MusicExporterError};

#[test]
fn new_holds_the_message() {
    let e = MusicExporterError::new("boom");
    assert_eq!(e.message, "boom");
    assert_eq!(e.kind, ErrorKind::Other);
    assert!(e.source.is_none());
    assert_eq!(e.text(), "boom");
}

#[test]
fn from_a_string_holds_the_message() {
    let e = MusicExporterError::from("boom".to_string());
    assert_eq!(e.message, "boom");
    assert_eq!(e.kind, ErrorKind::Other);
    assert_eq!(e.text(), "boom");
}

#[test]
fn of_kind_holds_the_kind() {
    for kind in [
        ErrorKind::Authorization,
        ErrorKind::Transport,
        ErrorKind::Parse,
        ErrorKind::Config,
    ] {
        let e = MusicExporterError::of_kind(kind, "m");
        assert_eq!(e.kind, kind);
        assert_eq!(e.message, "m");
    }
}

#[test]
fn an_error_with_a_cause_shows_both() {
    let cause = MusicExporterError::of_kind(ErrorKind::Config, "path not found");
    let e = MusicExporterError::new_with_source("Failed to load env file", cause);
    assert_eq!(e.message, "Failed to load env file");
    assert_eq!(e.kind, ErrorKind::Config);
    assert_eq!(
        e.text(),
        "Failed to load env file - caused by: path not found"
    );
    let outer = MusicExporterError::new_with_source("outer", e);
    assert_eq!(
        outer.text(),
        "outer - caused by: Failed to load env file - caused by: path not found"
    );
}

#[test]
fn an_error_taken_over_shows_its_cause() {
    let e = MusicExporterError::from_cause(ErrorKind::Transport, "connection refused".to_string());
    assert_eq!(e.message, "connection refused");
    assert_eq!(e.kind, ErrorKind::Transport);
    assert_eq!(e.source.as_deref(), Some("connection refused"));
    assert_eq!(
        e.text(),
        "connection refused - caused by: connection refused"
    );
}

#[test]
fn an_error_of_an_answer_prefers_its_error_text() {
    let e = MusicExporterError::from_answer(
        Some("quota".to_string()),
        "{\"error\":\"quota\"}".to_string(),
    );
    assert_eq!(e.message, "quota");
    assert_eq!(e.kind, ErrorKind::Transport);
    let e = MusicExporterError::from_answer(None, "{\"code\":4}".to_string());
    assert_eq!(e.message, "{\"code\":4}");
}

#[test]
fn a_copy_of_an_error_holds_the_same() {
    let cause = MusicExporterError::of_kind(ErrorKind::Parse, "c");
    let e = MusicExporterError::new_with_source("m", cause);
    let copy = e.clone();
    assert_eq!(copy.message, e.message);
    assert_eq!(copy.kind, e.kind);
    assert_eq!(copy.source, e.source);
}
