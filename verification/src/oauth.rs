//! Capturing the authorization code of an OAuth2 redirect.
//!
//! A listener on the loopback address takes one connection. The target of
//! its request is read as a query string; a parameter named `code` is the
//! authorization code. The listener answers and is closed, whatever the
//! request held: it never takes a second one.
//!
//! The socket belongs to the caller. Here is what is decided: the address to
//! bind, what a request target yields, what is answered, and how the
//! listener ends. The caller performs each action and reports what happened
//! as the next event.

use crate::errors::{plain_error, ErrorKind, ErrorView, MusicExporterError};
use crate::http::{
    form_pairs, last_named, last_value, pairs_of_query, pairs_view, query_of, query_of_url,
};
use crate::text::{decimal, decimal_string, joined};
use vstd::prelude::*;

verus! {

/// The port on which the platforms expect the listener.
pub const DEFAULT_PORT: u32 = 8000;

/// The highest port there is.
pub const MAX_PORT: u32 = 65535;

/// The status of the answer to a request that held a code.
pub const STATUS_ACCEPTED: u16 = 200;

/// The status of the answer to a request that held none.
pub const STATUS_REJECTED: u16 = 400;

/// The content type of every answer.
pub const REPLY_CONTENT_TYPE: &'static str = "text/plain";

/// An authorization code, as it came with the redirect.
#[derive(Debug)]
pub struct ReceivedCode {
    /// The code.
    pub code: String,
}

impl Clone for ReceivedCode {
    fn clone(&self) -> (r: Self)
        ensures
            r == *self,
    {
        ReceivedCode { code: self.code.clone() }
    }
}

/// What a request target yielded.
#[derive(Debug)]
pub enum Callback {
    /// The target held a parameter named `code`.
    Code(ReceivedCode),
    /// The target held no parameter named `code`.
    MissingCode,
    /// The target could not be read as part of a URL.
    InvalidTarget,
}

/// What a `Callback` holds.
pub ghost enum CallbackView {
    Code(Seq<char>),
    MissingCode,
    InvalidTarget,
}

impl View for Callback {
    type V = CallbackView;

    open spec fn view(&self) -> CallbackView {
        match self {
            Callback::Code(c) => CallbackView::Code(c.code@),
            Callback::MissingCode => CallbackView::MissingCode,
            Callback::InvalidTarget => CallbackView::InvalidTarget,
        }
    }
}

/// The answer to a request.
#[derive(Debug)]
pub struct Reply {
    /// The status.
    pub status: u16,
    /// The content type of the body.
    pub content_type: &'static str,
    /// The body.
    pub body: String,
}

/// What a `Reply` holds.
pub ghost struct ReplyView {
    pub status: u16,
    pub content_type: Seq<char>,
    pub body: Seq<char>,
}

impl View for Reply {
    type V = ReplyView;

    open spec fn view(&self) -> ReplyView {
        ReplyView { status: self.status, content_type: self.content_type@, body: self.body@ }
    }
}

/// The code that the pairs of a query string hold: the value of the last
/// pair named `code`.
pub open spec fn code_of_pairs(pairs: Seq<(Seq<char>, Seq<char>)>) -> CallbackView {
    match last_named(pairs, "code"@) {
        Some(i) => CallbackView::Code(pairs[i].1),
        None => CallbackView::MissingCode,
    }
}

/// What the request target `target` yields: it is read as the rest of a URL
/// on `localhost`, and its query string, the empty one where it has none,
/// as pairs.
pub open spec fn callback_of(target: Seq<char>) -> CallbackView {
    match query_of("http://localhost"@ + target) {
        Ok(Some(query)) => code_of_pairs(form_pairs(query)),
        Ok(None) => code_of_pairs(form_pairs(Seq::empty())),
        Err(_) => CallbackView::InvalidTarget,
    }
}

/// The answer to a request whose target yielded `callback`: 200 where it
/// held a code, 400 where it did not, in plain text either way.
pub open spec fn reply_to(callback: CallbackView) -> ReplyView {
    match callback {
        CallbackView::Code(_) => ReplyView {
            status: 200,
            content_type: "text/plain"@,
            body: "Authorization successful! You can close this window."@,
        },
        CallbackView::MissingCode => ReplyView {
            status: 400,
            content_type: "text/plain"@,
            body: "Missing authorization code"@,
        },
        CallbackView::InvalidTarget => ReplyView {
            status: 400,
            content_type: "text/plain"@,
            body: "Invalid callback URL"@,
        },
    }
}

/// The code that the pairs of a query string hold.
pub fn code_in_pairs(pairs: &Vec<(String, String)>) -> (r: Callback)
    ensures
        r@ == code_of_pairs(pairs_view(pairs@)),
{
    match last_value(pairs, "code") {
        Some(value) => Callback::Code(ReceivedCode { code: value.clone() }),
        None => Callback::MissingCode,
    }
}

/// Reads the target of the one request that the listener takes.
pub fn handle_callback(target: &str) -> (r: Callback)
    ensures
        r@ == callback_of(target@),
{
    let address = joined("http://localhost", target);
    match query_of_url(address.as_str()) {
        Ok(Some(query)) => code_in_pairs(&pairs_of_query(query.as_str())),
        Ok(None) => {
            let empty = String::new();
            code_in_pairs(&pairs_of_query(empty.as_str()))
        },
        Err(_) => Callback::InvalidTarget,
    }
}

/// The answer to a request whose target yielded `callback`.
pub fn reply_for(callback: &Callback) -> (r: Reply)
    ensures
        r@ == reply_to(callback@),
{
    match callback {
        Callback::Code(_) => Reply {
            status: STATUS_ACCEPTED,
            content_type: REPLY_CONTENT_TYPE,
            body: "Authorization successful! You can close this window.".to_owned(),
        },
        Callback::MissingCode => Reply {
            status: STATUS_REJECTED,
            content_type: REPLY_CONTENT_TYPE,
            body: "Missing authorization code".to_owned(),
        },
        Callback::InvalidTarget => Reply {
            status: STATUS_REJECTED,
            content_type: REPLY_CONTENT_TYPE,
            body: "Invalid callback URL".to_owned(),
        },
    }
}

/// The state of a listener.
#[derive(Debug)]
pub enum Listener {
    /// The loopback address is being bound.
    Binding,
    /// The address is bound; the one connection is awaited.
    Waiting,
    /// The code was delivered. The listener is closed.
    Delivered(ReceivedCode),
    /// No code will come. The listener is closed.
    Failed(MusicExporterError),
}

/// What a `Listener` holds.
pub ghost enum ListenerView {
    Binding,
    Waiting,
    Delivered(Seq<char>),
    Failed(ErrorView),
}

impl View for Listener {
    type V = ListenerView;

    open spec fn view(&self) -> ListenerView {
        match self {
            Listener::Binding => ListenerView::Binding,
            Listener::Waiting => ListenerView::Waiting,
            Listener::Delivered(c) => ListenerView::Delivered(c.code@),
            Listener::Failed(e) => ListenerView::Failed(e@),
        }
    }
}

/// What happened to a listener.
#[derive(Debug)]
pub enum ListenerEvent {
    /// The address was bound.
    Bound,
    /// The address could not be bound, for the reason given.
    BindFailed(String),
    /// A connection came and made a request with the target given.
    Request(String),
    /// No connection could be taken, or it made no request, for the reason
    /// given.
    ConnectionFailed(String),
    /// The wait was cancelled from outside.
    Cancelled,
}

/// What a `ListenerEvent` holds.
pub ghost enum EventView {
    Bound,
    BindFailed(Seq<char>),
    Request(Seq<char>),
    ConnectionFailed(Seq<char>),
    Cancelled,
}

impl View for ListenerEvent {
    type V = EventView;

    open spec fn view(&self) -> EventView {
        match self {
            ListenerEvent::Bound => EventView::Bound,
            ListenerEvent::BindFailed(m) => EventView::BindFailed(m@),
            ListenerEvent::Request(t) => EventView::Request(t@),
            ListenerEvent::ConnectionFailed(m) => EventView::ConnectionFailed(m@),
            ListenerEvent::Cancelled => EventView::Cancelled,
        }
    }
}

/// What the caller is to do next.
#[derive(Debug)]
pub enum ListenerAction {
    /// Bind the address given and report `Bound` or `BindFailed`.
    Bind(String),
    /// Take one connection and report its `Request`, while watching for a
    /// cancellation.
    Accept,
    /// Answer the request with the reply given, then close the listener.
    Answer(Reply),
    /// Stop the task that waits for the connection.
    Abort,
    /// Nothing.
    Nothing,
}

/// What a `ListenerAction` holds.
pub ghost enum ActionView {
    Bind(Seq<char>),
    Accept,
    Answer(ReplyView),
    Abort,
    Nothing,
}

impl View for ListenerAction {
    type V = ActionView;

    open spec fn view(&self) -> ActionView {
        match self {
            ListenerAction::Bind(a) => ActionView::Bind(a@),
            ListenerAction::Accept => ActionView::Accept,
            ListenerAction::Answer(r) => ActionView::Answer(r@),
            ListenerAction::Abort => ActionView::Abort,
            ListenerAction::Nothing => ActionView::Nothing,
        }
    }
}

/// The loopback address with the port `port`.
pub open spec fn loopback(port: u32) -> Seq<char> {
    "127.0.0.1:"@ + decimal(port as nat)
}

/// An error of the kind `Authorization` with the message `message`.
pub open spec fn refused(message: Seq<char>) -> ErrorView {
    plain_error(ErrorKind::Authorization, message)
}

/// The listener is closed: it delivered the code or failed.
pub open spec fn closed(s: ListenerView) -> bool {
    s is Delivered || s is Failed
}

/// A listener for the port `port` as it starts, and what is to be done
/// first: bind the loopback address. A number that is no port fails at once.
pub open spec fn started(port: u32) -> (ListenerView, ActionView) {
    if port <= 65535 {
        (ListenerView::Binding, ActionView::Bind(loopback(port)))
    } else {
        (ListenerView::Failed(refused("Invalid address: "@ + loopback(port))), ActionView::Nothing)
    }
}

/// The state after `event` happened in the state `s`, and what is to be
/// done then.
///
/// Once bound, the listener takes one connection. Its request is answered,
/// and the listener is closed whether the request held a code or not. A
/// cancellation before that closes it without a code. A closed listener
/// stays as it is; so does one to which something happens that its state
/// does not await.
pub open spec fn stepped(s: ListenerView, event: EventView) -> (ListenerView, ActionView) {
    match (s, event) {
        (ListenerView::Binding, EventView::Bound) => (ListenerView::Waiting, ActionView::Accept),
        (ListenerView::Binding, EventView::BindFailed(reason)) => (
            ListenerView::Failed(refused("Failed to bind: "@ + reason)),
            ActionView::Nothing,
        ),
        (ListenerView::Waiting, EventView::Request(target)) => (
            match callback_of(target) {
                CallbackView::Code(code) => ListenerView::Delivered(code),
                other => ListenerView::Failed(refused(reply_to(other).body)),
            },
            ActionView::Answer(reply_to(callback_of(target))),
        ),
        (ListenerView::Waiting, EventView::ConnectionFailed(reason)) => (
            ListenerView::Failed(refused("Error accepting connection: "@ + reason)),
            ActionView::Nothing,
        ),
        (ListenerView::Binding, EventView::Cancelled) | (
            ListenerView::Waiting,
            EventView::Cancelled,
        ) => (ListenerView::Failed(refused("Cancelled before a code came"@)), ActionView::Abort),
        _ => (s, ActionView::Nothing),
    }
}

impl Listener {
    /// Starts a listener for the port `port`.
    pub fn start(port: u32) -> (r: (Listener, ListenerAction))
        ensures
            (r.0@, r.1@) == started(port),
    {
        let address = joined("127.0.0.1:", decimal_string(port as u64).as_str());
        if port <= MAX_PORT {
            (Listener::Binding, ListenerAction::Bind(address))
        } else {
            let message = joined("Invalid address: ", address.as_str());
            (
                Listener::Failed(
                    MusicExporterError::of_kind(ErrorKind::Authorization, message.as_str()),
                ),
                ListenerAction::Nothing,
            )
        }
    }

    /// Takes in what happened and says what is to be done next.
    pub fn step(self, event: ListenerEvent) -> (r: (Listener, ListenerAction))
        ensures
            (r.0@, r.1@) == stepped(self@, event@),
    {
        match (self, event) {
            (Listener::Binding, ListenerEvent::Bound) => (
                Listener::Waiting,
                ListenerAction::Accept,
            ),
            (Listener::Binding, ListenerEvent::BindFailed(reason)) => {
                let message = joined("Failed to bind: ", reason.as_str());
                (Listener::Failed(Self::refuse(message.as_str())), ListenerAction::Nothing)
            },
            (Listener::Waiting, ListenerEvent::Request(target)) => {
                let callback = handle_callback(target.as_str());
                let reply = reply_for(&callback);
                let next = match callback {
                    Callback::Code(code) => Listener::Delivered(code),
                    _ => Listener::Failed(Self::refuse(reply.body.as_str())),
                };
                (next, ListenerAction::Answer(reply))
            },
            (Listener::Waiting, ListenerEvent::ConnectionFailed(reason)) => {
                let message = joined("Error accepting connection: ", reason.as_str());
                (Listener::Failed(Self::refuse(message.as_str())), ListenerAction::Nothing)
            },
            (Listener::Binding, ListenerEvent::Cancelled) => (
                Listener::Failed(Self::refuse("Cancelled before a code came")),
                ListenerAction::Abort,
            ),
            (Listener::Waiting, ListenerEvent::Cancelled) => (
                Listener::Failed(Self::refuse("Cancelled before a code came")),
                ListenerAction::Abort,
            ),
            (state, _) => (state, ListenerAction::Nothing),
        }
    }

    /// An error of the kind `Authorization` with the message `message`.
    fn refuse(message: &str) -> (r: MusicExporterError)
        ensures
            r@ == refused(message@),
    {
        MusicExporterError::of_kind(ErrorKind::Authorization, message)
    }

    /// Whether the listener is closed.
    pub fn is_closed(&self) -> (r: bool)
        ensures
            r == closed(self@),
    {
        match self {
            Listener::Delivered(_) => true,
            Listener::Failed(_) => true,
            _ => false,
        }
    }

    /// What the listener ended with: the code, or the reason why none came.
    /// Nothing while it is still open.
    pub fn outcome(self) -> (r: Option<Result<ReceivedCode, MusicExporterError>>)
        ensures
            match r {
                Some(Ok(code)) => self@ == ListenerView::Delivered(code.code@),
                Some(Err(e)) => self@ == ListenerView::Failed(e@),
                None => !closed(self@),
            },
    {
        match self {
            Listener::Delivered(code) => Some(Ok(code)),
            Listener::Failed(e) => Some(Err(e)),
            _ => None,
        }
    }
}

/// A closed listener stays as it is, whatever happens, and asks for nothing
/// more: a code is delivered once at most, and nothing follows a failure.
pub proof fn lemma_closed_is_final(s: ListenerView, event: EventView)
    requires
        closed(s),
    ensures
        stepped(s, event) == (s, ActionView::Nothing),
{
}

/// A code is delivered only by a request whose target holds one, and that
/// request is answered with 200; every other request is answered with 400
/// and closes the listener without a code.
pub proof fn lemma_delivery(s: ListenerView, event: EventView)
    requires
        !closed(s),
    ensures
        stepped(s, event).0 is Delivered <==> s is Waiting && event is Request && callback_of(
            event->Request_0,
        ) is Code,
        stepped(s, event).0 is Delivered ==> stepped(s, event).0->Delivered_0 == callback_of(
            event->Request_0,
        )->Code_0 && stepped(s, event).1 is Answer && stepped(s, event).1->Answer_0.status == 200,
        s is Waiting && event is Request ==> closed(stepped(s, event).0),
        s is Waiting && event is Request && !(callback_of(event->Request_0) is Code) ==> stepped(
            s,
            event,
        ).0 is Failed && stepped(s, event).1->Answer_0.status == 400,
        event is Cancelled ==> stepped(s, event).0 is Failed && stepped(s, event).1 is Abort,
{
}

} // verus!
