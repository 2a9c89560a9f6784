use music_exporter::pagination::{Page, PageCursor, Pagination, Position};
use music_exporter::Music;

fn record(title: &str) -> Music {
    Music {
        author: "a".to_string(),
        title: title.to_string(),
        url: None,
        thumbnail: None,
        date: None,
        album: None,
    }
}

fn titles(items: &[Music]) -> Vec<String> {
    items.iter().map(|m| m.title.clone()).collect()
}

#[test]
fn pagination_ends_after_one_page_without_a_cursor() {
    let mut pagination = Pagination::start();
    assert!(!pagination.is_done());
    assert!(pagination.cursor().is_none());
    pagination.accept(Page {
        items: vec![record("one"), record("two")],
        next: None,
    });
    assert!(pagination.is_done());
    assert!(pagination.cursor().is_none());
    assert_eq!(titles(&pagination.finish()), vec!["one", "two"]);
}

#[test]
fn pagination_follows_the_cursors() {
    let mut pagination = Pagination::start();
    assert!(matches!(pagination.position, Position::First));
    pagination.accept(Page {
        items: vec![record("one")],
        next: Some(PageCursor::Offset(50)),
    });
    assert!(!pagination.is_done());
    assert!(matches!(
        pagination.cursor(),
        Some(PageCursor::Offset(50))
    ));
    pagination.accept(Page {
        items: vec![],
        next: Some(PageCursor::Token("t".to_string())),
    });
    match pagination.cursor() {
        Some(PageCursor::Token(t)) => assert_eq!(t, "t"),
        other => panic!("unexpected cursor {:?}", other),
    }
    pagination.accept(Page {
        items: vec![record("two")],
        next: None,
    });
    assert!(pagination.is_done());
    assert_eq!(titles(&pagination.finish()), vec!["one", "two"]);
}

#[test]
fn a_page_after_the_last_is_not_taken() {
    let mut pagination = Pagination::start();
    pagination.accept(Page {
        items: vec![record("one")],
        next: None,
    });
    pagination.accept(Page {
        items: vec![record("late")],
        next: Some(PageCursor::Offset(1)),
    });
    assert!(pagination.is_done());
    assert_eq!(titles(&pagination.finish()), vec!["one"]);
}

#[test]
fn an_empty_first_page_ends_the_fetch() {
    let mut pagination = Pagination::start();
    pagination.accept(Page {
        items: vec![],
        next: None,
    });
    assert!(pagination.is_done());
    assert_eq!(pagination.finish().len(), 0);
}
