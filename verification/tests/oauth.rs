use music_exporter::errors::ErrorKind;
use music_exporter::oauth::{
    code_in_pairs, handle_callback, reply_for, Callback, Listener, ListenerAction, ListenerEvent,
};

fn code_of(callback: &Callback) -> Option<&str> {
    match callback {
        Callback::Code(c) => Some(c.code.as_str()),
        _ => None,
    }
}

fn pairs(items: &[(&str, &str)]) -> Vec<(String, String)> {
    items
        .iter()
        .map(|(k, v)| (k.to_string(), v.to_string()))
        .collect()
}

#[test]
fn callback_with_a_code_delivers_it() {
    let callback = handle_callback("/?code=abc123");
    assert_eq!(code_of(&callback), Some("abc123"));
    let reply = reply_for(&callback);
    assert_eq!(reply.status, 200);
    assert_eq!(reply.content_type, "text/plain");
    assert_eq!(
        reply.body,
        "Authorization successful! You can close this window."
    );
}

#[test]
fn callback_without_a_code_fails() {
    let callback = handle_callback("/?foo=1");
    assert!(matches!(callback, Callback::MissingCode));
    let reply = reply_for(&callback);
    assert_eq!(reply.status, 400);
    assert_eq!(reply.body, "Missing authorization code");
}

#[test]
fn callback_without_a_query_fails() {
    assert!(matches!(handle_callback("/"), Callback::MissingCode));
    assert!(matches!(handle_callback(""), Callback::MissingCode));
    assert!(matches!(handle_callback("/?"), Callback::MissingCode));
}

#[test]
fn callback_with_a_target_that_is_no_url_fails() {
    let callback = handle_callback(":99999999/?code=abc");
    assert!(matches!(callback, Callback::InvalidTarget));
    let reply = reply_for(&callback);
    assert_eq!(reply.status, 400);
    assert_eq!(reply.body, "Invalid callback URL");
}

#[test]
fn callback_decodes_the_code() {
    let callback = handle_callback("/?state=x&code=4%2F0A+b&scope=y");
    assert_eq!(code_of(&callback), Some("4/0A b"));
}

#[test]
fn callback_takes_the_last_code() {
    let callback = handle_callback("/?code=first&code=second");
    assert_eq!(code_of(&callback), Some("second"));
    assert_eq!(code_of(&handle_callback("/?code=")), Some(""));
}

#[test]
fn callback_leaves_the_fragment_out() {
    let callback = handle_callback("/?code=abc#code=def");
    assert_eq!(code_of(&callback), Some("abc"));
}

#[test]
fn code_in_pairs_goes_by_the_name() {
    assert_eq!(
        code_of(&code_in_pairs(&pairs(&[("a", "1"), ("code", "x"), ("b", "2")]))),
        Some("x")
    );
    assert!(matches!(
        code_in_pairs(&pairs(&[("Code", "x"), ("codes", "y")])),
        Callback::MissingCode
    ));
    assert!(matches!(code_in_pairs(&pairs(&[])), Callback::MissingCode));
}

#[test]
fn listener_binds_the_loopback_address() {
    let (listener, action) = Listener::start(8000);
    assert!(matches!(listener, Listener::Binding));
    match action {
        ListenerAction::Bind(address) => assert_eq!(address, "127.0.0.1:8000"),
        other => panic!("unexpected action {:?}", other),
    }
}

#[test]
fn listener_refuses_a_number_that_is_no_port() {
    let (listener, action) = Listener::start(65536);
    assert!(matches!(action, ListenerAction::Nothing));
    match listener {
        Listener::Failed(e) => {
            assert_eq!(e.message, "Invalid address: 127.0.0.1:65536");
            assert_eq!(e.kind, ErrorKind::Authorization);
        }
        other => panic!("unexpected state {:?}", other),
    }
    let (listener, _) = Listener::start(65535);
    assert!(matches!(listener, Listener::Binding));
}

#[test]
fn listener_delivers_the_code_of_the_one_request() {
    let (listener, _) = Listener::start(8000);
    let (listener, action) = listener.step(ListenerEvent::Bound);
    assert!(matches!(listener, Listener::Waiting));
    assert!(matches!(action, ListenerAction::Accept));
    assert!(!listener.is_closed());
    let (listener, action) = listener.step(ListenerEvent::Request("/?code=abc123".to_string()));
    match action {
        ListenerAction::Answer(reply) => assert_eq!(reply.status, 200),
        other => panic!("unexpected action {:?}", other),
    }
    assert!(listener.is_closed());
    // a second request is not taken
    let (listener, action) = listener.step(ListenerEvent::Request("/?code=other".to_string()));
    assert!(matches!(action, ListenerAction::Nothing));
    let code = listener.outcome().unwrap().unwrap();
    assert_eq!(code.code, "abc123");
}

#[test]
fn listener_fails_on_a_request_without_a_code() {
    let (listener, _) = Listener::start(8000);
    let (listener, _) = listener.step(ListenerEvent::Bound);
    let (listener, action) = listener.step(ListenerEvent::Request("/?foo=1".to_string()));
    match action {
        ListenerAction::Answer(reply) => {
            assert_eq!(reply.status, 400);
            assert_eq!(reply.body, "Missing authorization code");
        }
        other => panic!("unexpected action {:?}", other),
    }
    assert!(listener.is_closed());
    // the listener is closed: a later request with a code delivers nothing
    let (listener, action) = listener.step(ListenerEvent::Request("/?code=late".to_string()));
    assert!(matches!(action, ListenerAction::Nothing));
    let e = listener.outcome().unwrap().unwrap_err();
    assert_eq!(e.message, "Missing authorization code");
    assert_eq!(e.kind, ErrorKind::Authorization);
}

#[test]
fn listener_is_cancelled_before_delivery() {
    let (listener, _) = Listener::start(8000);
    let (listener, _) = listener.step(ListenerEvent::Bound);
    let (listener, action) = listener.step(ListenerEvent::Cancelled);
    assert!(matches!(action, ListenerAction::Abort));
    match listener.outcome() {
        Some(Err(e)) => {
            assert_eq!(e.kind, ErrorKind::Authorization);
            assert_eq!(e.message, "Cancelled before a code came");
        }
        other => panic!("unexpected outcome {:?}", other),
    }
}

#[test]
fn a_cancellation_after_delivery_changes_nothing() {
    let (listener, _) = Listener::start(8000);
    let (listener, _) = listener.step(ListenerEvent::Bound);
    let (listener, _) = listener.step(ListenerEvent::Request("/?code=abc".to_string()));
    let (listener, action) = listener.step(ListenerEvent::Cancelled);
    assert!(matches!(action, ListenerAction::Nothing));
    assert_eq!(listener.outcome().unwrap().unwrap().code, "abc");
}

#[test]
fn listener_fails_when_the_address_cannot_be_bound() {
    let (listener, _) = Listener::start(8000);
    let (listener, action) = listener.step(ListenerEvent::BindFailed("in use".to_string()));
    assert!(matches!(action, ListenerAction::Nothing));
    match listener.outcome() {
        Some(Err(e)) => {
            assert_eq!(e.message, "Failed to bind: in use");
            assert_eq!(e.kind, ErrorKind::Authorization);
        }
        other => panic!("unexpected outcome {:?}", other),
    }
}

#[test]
fn listener_fails_when_no_connection_can_be_taken() {
    let (listener, _) = Listener::start(8000);
    let (listener, _) = listener.step(ListenerEvent::Bound);
    let (listener, _) = listener.step(ListenerEvent::ConnectionFailed("reset".to_string()));
    match listener.outcome() {
        Some(Err(e)) => assert_eq!(e.message, "Error accepting connection: reset"),
        other => panic!("unexpected outcome {:?}", other),
    }
}

#[test]
fn listener_ignores_what_it_does_not_await() {
    let (listener, _) = Listener::start(8000);
    let (listener, action) = listener.step(ListenerEvent::Request("/?code=x".to_string()));
    assert!(matches!(listener, Listener::Binding));
    assert!(matches!(action, ListenerAction::Nothing));
    let (listener, _) = listener.step(ListenerEvent::Bound);
    let (listener, action) = listener.step(ListenerEvent::Bound);
    assert!(matches!(listener, Listener::Waiting));
    assert!(matches!(action, ListenerAction::Nothing));
    assert!(listener.outcome().is_none());
}

#[test]
fn an_open_listener_has_no_outcome() {
    let (listener, _) = Listener::start(8000);
    assert!(!listener.is_closed());
    assert!(listener.outcome().is_none());
}

#[test]
fn a_target_beyond_the_limit_is_no_target() {
    let target = format!("/?code=abc&pad={}", "x".repeat(1048576));
    assert!(matches!(handle_callback(&target), Callback::InvalidTarget));
}
