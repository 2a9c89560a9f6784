//! Requests as plain values, and the encodings that building and reading
//! them needs: URLs with their query strings, form-encoded pairs, base64.
//!
//! Nothing here sends anything. A request says what is to be sent; the
//! caller sends it and hands back what came.

use crate::errors::{plain_error, ErrorKind, ErrorView, MusicExporterError};
use crate::order::same_text;
use crate::text::joined;
use base64::Engine;
use vstd::prelude::*;
use vstd::string::StringSliceAdditionalSpecFns;
use vstd::utf8::encode_utf8;

verus! {

/// The method of a request.
#[derive(Clone, Copy, Debug, PartialEq, Eq, Structural)]
pub enum Method {
    /// GET
    Get,
    /// POST
    Post,
}

/// A request to be sent.
#[derive(Debug)]
pub struct HttpRequest {
    /// The method.
    pub method: Method,
    /// The URL, with the query string that belongs to it.
    pub url: String,
    /// The headers, by name and value.
    pub headers: Vec<(String, String)>,
    /// Pairs that the sender adds to the query string of the URL.
    pub query: Vec<(String, String)>,
    /// Pairs that the sender puts, form-encoded, into the body.
    pub form: Vec<(String, String)>,
}

/// What an `HttpRequest` holds.
pub ghost struct RequestView {
    pub method: Method,
    pub url: Seq<char>,
    pub headers: Seq<(Seq<char>, Seq<char>)>,
    pub query: Seq<(Seq<char>, Seq<char>)>,
    pub form: Seq<(Seq<char>, Seq<char>)>,
}

/// The characters of each pair of `s`.
pub open spec fn pairs_view(s: Seq<(String, String)>) -> Seq<(Seq<char>, Seq<char>)> {
    s.map_values(|p: (String, String)| (p.0@, p.1@))
}

impl View for HttpRequest {
    type V = RequestView;

    open spec fn view(&self) -> RequestView {
        RequestView {
            method: self.method,
            url: self.url@,
            headers: pairs_view(self.headers@),
            query: pairs_view(self.query@),
            form: pairs_view(self.form@),
        }
    }
}

/// The URL that `url::Url::parse_with_params` makes of `base` and `params`,
/// written out; `None` where it does not take `base` for an absolute URL.
pub uninterp spec fn url_with_params(
    base: Seq<char>,
    params: Seq<(Seq<char>, Seq<char>)>,
) -> Option<Seq<char>>;

/// The query string that `url::Url::query` gives for the URL that
/// `url::Url::parse` makes of `input`: the outer `None` where `input` is not
/// taken for an absolute URL, the inner one where the URL has no query
/// string.
pub uninterp spec fn url_query(input: Seq<char>) -> Option<Option<Seq<char>>>;

/// The pairs that `url::form_urlencoded::parse` reads from the bytes of
/// `query`, names and values decoded, in the order in which they stand.
pub uninterp spec fn form_pairs(query: Seq<char>) -> Seq<(Seq<char>, Seq<char>)>;

/// What the standard base64 engine of the crate `base64`, with padding,
/// writes for `input`.
pub uninterp spec fn base64_standard(input: Seq<u8>) -> Seq<char>;

/// The most bytes that the texts of which a URL is made may have together.
/// The crate `url` keeps positions within a URL in 32 bits; texts within
/// this limit stay far below what those can hold.
pub const MAX_URL_BYTES: usize = 1048576;

/// The number of bytes of a text.
pub open spec fn text_bytes(s: Seq<char>) -> nat {
    encode_utf8(s).len()
}

/// The number of bytes of the names and values of `pairs`.
pub open spec fn pairs_bytes(pairs: Seq<(Seq<char>, Seq<char>)>) -> nat
    decreases pairs.len(),
{
    if pairs.len() == 0 {
        0
    } else {
        pairs_bytes(pairs.drop_last()) + text_bytes(pairs.last().0) + text_bytes(pairs.last().1)
    }
}

/// The texts of which a URL is made are within the limit.
pub open spec fn within_limit(base: Seq<char>, params: Seq<(Seq<char>, Seq<char>)>) -> bool {
    text_bytes(base) + pairs_bytes(params) <= MAX_URL_BYTES
}

/// The error with which the crate `url` refuses a text.
#[verifier::external_type_specification]
#[verifier::external_body]
pub struct ExParseError(url::ParseError);

/// Calls `url::Url::parse_with_params` and writes the URL out. The result is
/// the named URL; an error comes exactly where there is none. Texts beyond
/// the limit are left out: with a URL of more than 4 GB the function panics.
#[verifier::external_body]
fn parse_with_params(base: &str, params: &Vec<(String, String)>) -> (r: Result<
    String,
    url::ParseError,
>)
    requires
        within_limit(base@, pairs_view(params@)),
    ensures
        match r {
            Ok(u) => url_with_params(base@, pairs_view(params@)) == Some(u@),
            Err(_) => url_with_params(base@, pairs_view(params@)) is None,
        },
{
    url::Url::parse_with_params(base, params.iter()).map(String::from)
}

/// Calls `url::Url::parse`, then `url::Url::query` on the URL. The result is
/// the named query string; an error comes exactly where `input` is not taken
/// for an absolute URL. Texts beyond the limit are left out.
#[verifier::external_body]
fn parse_query(input: &str) -> (r: Result<Option<String>, url::ParseError>)
    requires
        text_bytes(input@) <= MAX_URL_BYTES,
    ensures
        match r {
            Ok(Some(q)) => url_query(input@) == Some(Some(q@)),
            Ok(None) => url_query(input@) == Some(None::<Seq<char>>),
            Err(_) => url_query(input@) is None,
        },
{
    match url::Url::parse(input) {
        Ok(u) => Ok(u.query().map(String::from)),
        Err(e) => Err(e),
    }
}

/// Calls `url::form_urlencoded::parse` on the bytes of `query` and collects
/// the pairs. The result holds the named pairs.
#[verifier::external_body]
fn parse_form(query: &str) -> (r: Vec<(String, String)>)
    ensures
        pairs_view(r@) == form_pairs(query@),
{
    url::form_urlencoded::parse(query.as_bytes()).into_owned().collect()
}

/// Writes out an error of the crate `url` with its `Display`. Nothing is
/// stated of the text.
#[verifier::external_body]
fn parse_error_text(e: &url::ParseError) -> (r: String) {
    e.to_string()
}

/// Calls `encode_string` of `base64::prelude::BASE64_STANDARD` on an empty
/// `String`. The result is the named encoding.
#[verifier::external_body]
fn encode_base64(input: &[u8]) -> (r: String)
    ensures
        r@ == base64_standard(input@),
{
    let mut output = String::new();
    base64::prelude::BASE64_STANDARD.encode_string(input, &mut output);
    output
}

/// The error of this library for a text that is no URL: of the kind
/// `Parse`, with the text of the cause as its message.
fn url_error(e: url::ParseError) -> (r: MusicExporterError)
    ensures
        r@.kind == ErrorKind::Parse,
        r@.source == Some(r@.message),
{
    MusicExporterError::from_cause(ErrorKind::Parse, parse_error_text(&e))
}

/// Why no request can be made, or no URL be read.
pub ghost enum RequestFailure {
    /// The library refuses, with the error given.
    Refused(ErrorView),
    /// The crate `url` takes the text for no URL.
    NoUrl,
}

/// `e` is the error of the failure `failure`. Where the text is no URL the
/// error is of the kind `Parse`, and its message is the text of its cause.
pub open spec fn is_failure(e: ErrorView, failure: RequestFailure) -> bool {
    match failure {
        RequestFailure::Refused(error) => e == error,
        RequestFailure::NoUrl => e.kind == ErrorKind::Parse && e.source == Some(e.message),
    }
}

/// The refusal of texts beyond the limit.
pub open spec fn too_long() -> RequestFailure {
    RequestFailure::Refused(plain_error(ErrorKind::Parse, "The address is too long"@))
}

/// The URL `base` with `params` as its query string: what
/// `url::Url::parse_with_params` makes of them, for texts within the limit.
pub open spec fn built_url(base: Seq<char>, params: Seq<(Seq<char>, Seq<char>)>) -> Result<
    Seq<char>,
    RequestFailure,
> {
    if !within_limit(base, params) {
        Err(too_long())
    } else {
        match url_with_params(base, params) {
            Some(url) => Ok(url),
            None => Err(RequestFailure::NoUrl),
        }
    }
}

/// The query string of the URL `input`, where it has one: what
/// `url::Url::query` gives for it, for a text within the limit.
pub open spec fn query_of(input: Seq<char>) -> Result<Option<Seq<char>>, RequestFailure> {
    if text_bytes(input) > MAX_URL_BYTES {
        Err(too_long())
    } else {
        match url_query(input) {
            Some(query) => Ok(query),
            None => Err(RequestFailure::NoUrl),
        }
    }
}

/// The bytes of a part of the pairs are no more than those of all.
proof fn lemma_pairs_bytes_grow(pairs: Seq<(Seq<char>, Seq<char>)>, k: int)
    requires
        0 <= k <= pairs.len(),
    ensures
        pairs_bytes(pairs.take(k)) <= pairs_bytes(pairs),
    decreases pairs.len() - k,
{
    if k == pairs.len() {
        assert(pairs.take(k) == pairs);
    } else {
        lemma_pairs_bytes_grow(pairs.drop_last(), k);
        assert(pairs.drop_last().take(k) == pairs.take(k));
    }
}

/// Whether the names and values of `pairs` have no more than `limit` bytes.
fn pairs_within(pairs: &Vec<(String, String)>, limit: usize) -> (r: bool)
    ensures
        r == (pairs_bytes(pairs_view(pairs@)) <= limit),
{
    let ghost all = pairs_view(pairs@);
    let mut total: usize = 0;
    let mut i: usize = 0;
    assert(all.take(0) == Seq::<(Seq<char>, Seq<char>)>::empty());
    while i < pairs.len()
        invariant
            i <= pairs@.len(),
            all == pairs_view(pairs@),
            total == pairs_bytes(all.take(i as int)),
            total <= limit,
        decreases pairs@.len() - i,
    {
        let name: usize = pairs[i].0.as_str().as_bytes().len();
        let value: usize = pairs[i].1.as_str().as_bytes().len();
        proof {
            assert(all.take(i + 1).drop_last() == all.take(i as int));
            assert(all.take(i + 1).last() == all[i as int]);
            lemma_pairs_bytes_grow(all, i + 1);
        }
        if name > limit - total || value > limit - total - name {
            return false;
        }
        total = total + name + value;
        i += 1;
    }
    assert(all.take(pairs@.len() as int) == all);
    true
}

/// An error for texts beyond the limit.
fn refuse_too_long() -> (r: MusicExporterError)
    ensures
        too_long() == RequestFailure::Refused(r@),
{
    MusicExporterError::of_kind(ErrorKind::Parse, "The address is too long")
}

/// Builds the URL `base` with `params` as its query string.
pub fn build_url(base: &str, params: &Vec<(String, String)>) -> (r: Result<
    String,
    MusicExporterError,
>)
    ensures
        match (r, built_url(base@, pairs_view(params@))) {
            (Ok(u), Ok(url)) => u@ == url,
            (Err(e), Err(failure)) => is_failure(e@, failure),
            _ => false,
        },
{
    let n: usize = base.as_bytes().len();
    if n > MAX_URL_BYTES || !pairs_within(params, MAX_URL_BYTES - n) {
        return Err(refuse_too_long());
    }
    match parse_with_params(base, params) {
        Ok(u) => Ok(u),
        Err(e) => Err(url_error(e)),
    }
}

/// The query string of the URL `input`, where it has one.
pub fn query_of_url(input: &str) -> (r: Result<Option<String>, MusicExporterError>)
    ensures
        match (r, query_of(input@)) {
            (Ok(Some(q)), Ok(Some(query))) => q@ == query,
            (Ok(None), Ok(None)) => true,
            (Err(e), Err(failure)) => is_failure(e@, failure),
            _ => false,
        },
{
    if input.as_bytes().len() > MAX_URL_BYTES {
        return Err(refuse_too_long());
    }
    match parse_query(input) {
        Ok(q) => Ok(q),
        Err(e) => Err(url_error(e)),
    }
}

/// The pairs of a query string, names and values decoded.
pub fn pairs_of_query(query: &str) -> (r: Vec<(String, String)>)
    ensures
        pairs_view(r@) == form_pairs(query@),
{
    parse_form(query)
}

/// Convert to base64
pub fn to_base_64(input: &str) -> (r: String)
    ensures
        r@ == base64_standard(input.spec_bytes()),
{
    encode_base64(input.as_bytes())
}

/// A GET request without a body, for the URL `base` with `params` as its
/// query string; a failure where there is no such URL.
pub open spec fn get_request(
    base: Seq<char>,
    params: Seq<(Seq<char>, Seq<char>)>,
    headers: Seq<(Seq<char>, Seq<char>)>,
    query: Seq<(Seq<char>, Seq<char>)>,
) -> Result<RequestView, RequestFailure> {
    match built_url(base, params) {
        Ok(url) => Ok(RequestView { method: Method::Get, url, headers, query, form: Seq::empty() }),
        Err(failure) => Err(failure),
    }
}

/// `r` is what asking for a request gives where `wanted` is to come of it.
pub open spec fn request_is(
    r: Result<HttpRequest, MusicExporterError>,
    wanted: Result<RequestView, RequestFailure>,
) -> bool {
    match (r, wanted) {
        (Ok(request), Ok(view)) => request@ == view,
        (Err(e), Err(failure)) => is_failure(e@, failure),
        _ => false,
    }
}

/// The pair of a name and a value.
pub fn pair(name: &str, value: &str) -> (r: (String, String))
    ensures
        r.0@ == name@,
        r.1@ == value@,
{
    (name.to_owned(), value.to_owned())
}

/// The index of the first pair of `pairs` with the name `name`.
pub open spec fn first_named(pairs: Seq<(Seq<char>, Seq<char>)>, name: Seq<char>) -> Option<int>
    decreases pairs.len(),
{
    if pairs.len() == 0 {
        None
    } else if pairs[0].0 == name {
        Some(0)
    } else {
        match first_named(pairs.drop_first(), name) {
            Some(i) => Some(i + 1),
            None => None,
        }
    }
}

/// The index of the last pair of `pairs` with the name `name`.
pub open spec fn last_named(pairs: Seq<(Seq<char>, Seq<char>)>, name: Seq<char>) -> Option<int>
    decreases pairs.len(),
{
    if pairs.len() == 0 {
        None
    } else if pairs.last().0 == name {
        Some(pairs.len() - 1)
    } else {
        last_named(pairs.drop_last(), name)
    }
}

/// The value of the first pair with the name `name`.
pub fn first_value<'a>(pairs: &'a Vec<(String, String)>, name: &str) -> (r: Option<&'a String>)
    ensures
        match r {
            Some(v) => {
                let i = first_named(pairs_view(pairs@), name@);
                i is Some && 0 <= i->0 < pairs@.len() && *v == pairs@[i->0].1
            },
            None => first_named(pairs_view(pairs@), name@) is None,
        },
{
    let n: usize = pairs.len();
    let ghost all = pairs_view(pairs@);
    let mut i: usize = 0;
    assert(all.subrange(0, n as int) == all);
    while i < n
        invariant
            n == pairs@.len(),
            i <= n,
            all == pairs_view(pairs@),
            match first_named(all.subrange(i as int, n as int), name@) {
                Some(k) => first_named(all, name@) == Some(k + i),
                None => first_named(all, name@) is None,
            },
        decreases n - i,
    {
        let ghost rest = all.subrange(i as int, n as int);
        assert(rest[0] == all[i as int]);
        assert(rest.drop_first() == all.subrange(i + 1, n as int));
        if same_text(pairs[i].0.as_str(), name) {
            return Some(&pairs[i].1);
        }
        i += 1;
    }
    None
}

/// The value of the last pair with the name `name`.
pub fn last_value<'a>(pairs: &'a Vec<(String, String)>, name: &str) -> (r: Option<&'a String>)
    ensures
        match r {
            Some(v) => {
                let i = last_named(pairs_view(pairs@), name@);
                i is Some && 0 <= i->0 < pairs@.len() && *v == pairs@[i->0].1
            },
            None => last_named(pairs_view(pairs@), name@) is None,
        },
{
    let ghost all = pairs_view(pairs@);
    let mut i: usize = pairs.len();
    assert(all.subrange(0, i as int) == all);
    while i > 0
        invariant
            i <= pairs@.len(),
            all == pairs_view(pairs@),
            last_named(all, name@) == last_named(all.subrange(0, i as int), name@),
        decreases i,
    {
        let ghost head = all.subrange(0, i as int);
        assert(head.last() == all[i - 1]);
        assert(head.drop_last() == all.subrange(0, i - 1));
        if same_text(pairs[i - 1].0.as_str(), name) {
            return Some(&pairs[i - 1].1);
        }
        i -= 1;
    }
    None
}

/// The status of an answer that succeeded.
pub const STATUS_OK: u16 = 200;

/// Tells success from failure by the status of an answer. Every status but
/// 200 is a failure of the kind `Transport`, whose message is `context`
/// followed by `status_text`, the status as the transport writes it.
pub fn expect_ok(status: u16, status_text: &str, context: &str) -> (r: Result<
    (),
    MusicExporterError,
>)
    ensures
        r is Ok <==> status == 200,
        r is Err ==> r->Err_0@ == plain_error(ErrorKind::Transport, context@ + status_text@),
{
    if status == STATUS_OK {
        Ok(())
    } else {
        let message = joined(context, status_text);
        Err(MusicExporterError::of_kind(ErrorKind::Transport, message.as_str()))
    }
}

/// The value of an `Authorization` header that shows a bearer token.
pub fn bearer(token: &str) -> (r: String)
    ensures
        r@ == "Bearer "@ + token@,
{
    joined("Bearer ", token)
}

/// An empty list of pairs.
pub fn no_pairs() -> (r: Vec<(String, String)>)
    ensures
        pairs_view(r@) == Seq::<(Seq<char>, Seq<char>)>::empty(),
{
    let r: Vec<(String, String)> = Vec::new();
    assert(pairs_view(r@) == Seq::<(Seq<char>, Seq<char>)>::empty());
    r
}

} // verus!
