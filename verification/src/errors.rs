//! The error of this library: what went wrong, in words, with the kind of
//! failure and the text of the cause where there is one.

use crate::music::clone_option;
use crate::text::joined;
use vstd::prelude::*;

verus! {

/// The kinds of failure.
#[derive(Clone, Copy, Debug, PartialEq, Eq, Structural)]
pub enum ErrorKind {
    /// The authorization code could not be had: the listener could not bind,
    /// the wait was cancelled, or the redirect held no usable code.
    Authorization,
    /// A request failed on the network or was answered with a status other
    /// than success.
    Transport,
    /// An answer did not have the expected shape.
    Parse,
    /// A required credential is missing.
    Config,
    /// An error made from a bare message, of no stated kind.
    Other,
}

/// The error of every fallible function of this library.
#[derive(Debug)]
pub struct MusicExporterError {
    /// error message
    pub message: String,
    /// kind of failure
    pub kind: ErrorKind,
    /// text of the error that caused this one
    pub source: Option<String>,
}

/// What a `MusicExporterError` holds.
pub ghost struct ErrorView {
    pub message: Seq<char>,
    pub kind: ErrorKind,
    pub source: Option<Seq<char>>,
}

impl View for MusicExporterError {
    type V = ErrorView;

    open spec fn view(&self) -> ErrorView {
        ErrorView {
            message: self.message@,
            kind: self.kind,
            source: match self.source {
                Some(s) => Some(s@),
                None => None,
            },
        }
    }
}

/// An error of the kind `kind` with the message `message` and no cause.
pub open spec fn plain_error(kind: ErrorKind, message: Seq<char>) -> ErrorView {
    ErrorView { message, kind, source: None }
}

/// The text that stands between a message and its cause.
pub open spec fn cause_separator() -> Seq<char> {
    " - caused by: "@
}

/// The text of an error: its message, followed by its cause where it has one.
pub open spec fn error_text(e: ErrorView) -> Seq<char> {
    match e.source {
        Some(cause) => e.message + cause_separator() + cause,
        None => e.message,
    }
}

impl Clone for MusicExporterError {
    fn clone(&self) -> (r: Self)
        ensures
            r == *self,
    {
        MusicExporterError {
            message: self.message.clone(),
            kind: self.kind,
            source: clone_option(&self.source),
        }
    }
}

impl MusicExporterError {
    /// An error of no stated kind with the message `s` and no cause.
    pub fn new(s: &str) -> (r: Self)
        ensures
            r@ == (ErrorView { message: s@, kind: ErrorKind::Other, source: None }),
    {
        MusicExporterError { message: s.to_owned(), kind: ErrorKind::Other, source: None }
    }

    /// An error of the kind `kind` with the message `s` and no cause.
    pub fn of_kind(kind: ErrorKind, s: &str) -> (r: Self)
        ensures
            r@ == plain_error(kind, s@),
    {
        MusicExporterError { message: s.to_owned(), kind, source: None }
    }

    /// An error with the message `s`, caused by `source`: it has the kind of
    /// its cause and holds the cause's text.
    pub fn new_with_source(s: &str, source: MusicExporterError) -> (r: Self)
        ensures
            r@ == (ErrorView {
                message: s@,
                kind: source@.kind,
                source: Some(error_text(source@)),
            }),
    {
        let cause = source.text();
        MusicExporterError { message: s.to_owned(), kind: source.kind, source: Some(cause) }
    }

    /// An error of the kind `kind` whose message is the text of its cause, as
    /// an error of another library is taken over.
    pub fn from_cause(kind: ErrorKind, cause: String) -> (r: Self)
        ensures
            r@ == (ErrorView { message: cause@, kind: kind, source: Some(cause@) }),
    {
        MusicExporterError { message: cause.clone(), kind, source: Some(cause) }
    }

    /// The error that a platform reports in an answer: its message is the
    /// text that the answer holds under "error", and the whole answer where
    /// it holds none. The kind is `Transport`.
    pub fn from_answer(error: Option<String>, answer: String) -> (r: Self)
        ensures
            r@ == (ErrorView {
                message: match error {
                    Some(text) => text@,
                    None => answer@,
                },
                kind: ErrorKind::Transport,
                source: None,
            }),
    {
        let message = match error {
            Some(text) => text,
            None => answer,
        };
        MusicExporterError { message, kind: ErrorKind::Transport, source: None }
    }

    /// The text of the error: the message, and behind it the cause where
    /// there is one.
    pub fn text(&self) -> (r: String)
        ensures
            r@ == error_text(self@),
    {
        match &self.source {
            Some(cause) => {
                let head = joined(self.message.as_str(), " - caused by: ");
                joined(head.as_str(), cause.as_str())
            },
            None => self.message.clone(),
        }
    }
}

impl From<String> for MusicExporterError {
    fn from(message: String) -> (r: Self) {
        MusicExporterError { message, kind: ErrorKind::Other, source: None }
    }
}

impl vstd::std_specs::convert::FromSpecImpl<String> for MusicExporterError {
    open spec fn obeys_from_spec() -> bool {
        true
    }

    open spec fn from_spec(message: String) -> Self {
        MusicExporterError { message, kind: ErrorKind::Other, source: None }
    }
}

} // verus!
