use music_exporter::order::{compare_bytes, compare_option, compare_text, same_text, Order};

fn expected(o: std::cmp::Ordering) -> Order {
    match o {
        std::cmp::Ordering::Less => Order::Less,
        std::cmp::Ordering::Equal => Order::Equal,
        std::cmp::Ordering::Greater => Order::Greater,
    }
}

#[test]
fn compare_text_agrees_with_the_order_of_str() {
    let samples = ["", "a", "A", "ab", "b", "é", "e", "z", "日本", "a\u{10000}", "a\u{ffff}"];
    for a in samples {
        for b in samples {
            assert_eq!(compare_text(a, b), expected(a.cmp(b)), "{a:?} {b:?}");
        }
    }
}

#[test]
fn compare_bytes_puts_a_prefix_first() {
    assert_eq!(compare_bytes(b"ab", b"abc"), Order::Less);
    assert_eq!(compare_bytes(b"abc", b"ab"), Order::Greater);
    assert_eq!(compare_bytes(b"", b""), Order::Equal);
    assert_eq!(compare_bytes(b"b", b"ab"), Order::Greater);
}

#[test]
fn compare_option_puts_the_absent_first() {
    let none: Option<String> = None;
    let empty = Some(String::new());
    let a = Some("a".to_string());
    let b = Some("b".to_string());
    assert_eq!(compare_option(&none, &none), Order::Equal);
    assert_eq!(compare_option(&none, &empty), Order::Less);
    assert_eq!(compare_option(&empty, &none), Order::Greater);
    assert_eq!(compare_option(&a, &b), Order::Less);
    assert_eq!(compare_option(&b, &a), Order::Greater);
    assert_eq!(compare_option(&a, &a), Order::Equal);
}

#[test]
fn same_text_tells_equal_texts() {
    assert!(same_text("code", "code"));
    assert!(!same_text("code", "Code"));
    assert!(!same_text("code", "codes"));
    assert!(same_text("", ""));
}
