//! Requests as values: what to send, to where, under which headers. The
//! engine describes a request; whoever drives it performs the call and hands
//! the answer back.

use vstd::prelude::*;
use vstd::string::StringExecFns;
use crate::types::{
    GetParkingSession, GetParkingSessionView, GetQuote, GetQuoteView, GetRateOptions,
    GetRateOptionsView, PostQuote, PostQuoteView,
};

verus! {

/// How a request is made.
#[derive(Clone, Copy, Debug, PartialEq, Eq, Structural)]
pub enum Method {
    Get,
    Post,
}

/// A header of a request, or a field of a form: a name and a value.
#[derive(Clone, Debug, PartialEq, Eq)]
pub struct Header {
    pub name: String,
    pub value: String,
}

impl View for Header {
    type V = (Seq<char>, Seq<char>);

    open spec fn view(&self) -> (Seq<char>, Seq<char>) {
        (self.name@, self.value@)
    }
}

/// What a list of headers says, in order.
pub open spec fn pairs(headers: Seq<Header>) -> Seq<(Seq<char>, Seq<char>)> {
    Seq::new(headers.len(), |i: int| headers[i]@)
}

/// The parameters that a call to the service can carry.
#[derive(Clone, Debug, PartialEq, Eq)]
pub enum Params {
    Sessions(GetParkingSession),
    RateOptions(GetRateOptions),
    Quote(GetQuote),
    Booking(PostQuote),
}

/// What a [`Params`] says.
pub enum ParamsView {
    Sessions(GetParkingSessionView),
    RateOptions(GetRateOptionsView),
    Quote(GetQuoteView),
    Booking(PostQuoteView),
}

impl View for Params {
    type V = ParamsView;

    open spec fn view(&self) -> ParamsView {
        match self {
            Params::Sessions(p) => ParamsView::Sessions(p@),
            Params::RateOptions(p) => ParamsView::RateOptions(p@),
            Params::Quote(p) => ParamsView::Quote(p@),
            Params::Booking(p) => ParamsView::Booking(p@),
        }
    }
}

/// What a request carries besides its headers, and where.
#[derive(Clone, Debug, PartialEq, Eq)]
pub enum Payload {
    /// Nothing.
    Empty,
    /// Parameters written into the query string.
    Query(Params),
    /// Parameters written as a JSON body.
    Json(Params),
    /// Fields written as a URL-encoded form body.
    Form(Vec<Header>),
}

/// What a [`Payload`] says.
pub enum PayloadView {
    Empty,
    Query(ParamsView),
    Json(ParamsView),
    Form(Seq<(Seq<char>, Seq<char>)>),
}

impl View for Payload {
    type V = PayloadView;

    open spec fn view(&self) -> PayloadView {
        match self {
            Payload::Empty => PayloadView::Empty,
            Payload::Query(p) => PayloadView::Query(p@),
            Payload::Json(p) => PayloadView::Json(p@),
            Payload::Form(fields) => PayloadView::Form(pairs(fields@)),
        }
    }
}

/// A call to make.
#[derive(Clone, Debug, PartialEq, Eq)]
pub struct Request {
    pub method: Method,
    pub url: String,
    pub headers: Vec<Header>,
    pub payload: Payload,
}

/// What a [`Request`] says.
pub struct RequestView {
    pub method: Method,
    pub url: Seq<char>,
    pub headers: Seq<(Seq<char>, Seq<char>)>,
    pub payload: PayloadView,
}

impl View for Request {
    type V = RequestView;

    open spec fn view(&self) -> RequestView {
        RequestView {
            method: self.method,
            url: self.url@,
            headers: pairs(self.headers@),
            payload: self.payload@,
        }
    }
}

/// The headers that every call to the service carries: those of a browser
/// on the service's own site.
pub open spec fn base_headers() -> Seq<(Seq<char>, Seq<char>)> {
    seq![
        (
            "User-Agent"@,
            "Mozilla/5.0 (Windows NT 10.0; Win64; x64) AppleWebKit/537.36 (KHTML, like Gecko) Chrome/58.0.3029.110 Safari/537.3"@,
        ),
        ("Accept-Language"@, "en-US,en;q=0.5"@),
        ("Accept-Encoding"@, "gzip, deflate"@),
        ("Referer"@, "https://paybyphone.com/"@),
        ("Origin"@, "https://paybyphone.com"@),
        ("DNT"@, "1"@),
        ("Connection"@, "keep-alive"@),
        ("Accept"@, "application/json, text/plain, */*"@),
    ]
}

/// The headers of a call made for a login: the base headers, the version of
/// the interface, the API key, and the token under its type.
pub open spec fn authenticated_headers(
    api_key: Seq<char>,
    token_type: Seq<char>,
    access_token: Seq<char>,
) -> Seq<(Seq<char>, Seq<char>)> {
    base_headers() + seq![
        ("x-pbp-version"@, "2"@),
        ("x-api-key"@, api_key),
        ("authorization"@, token_type + " "@ + access_token),
    ]
}

/// The headers of the call that asks for a token.
pub open spec fn token_headers() -> Seq<(Seq<char>, Seq<char>)> {
    base_headers() + seq![("X-Pbp-ClientType"@, "WebApp"@)]
}

/// Where parameters go: into the query of a `GET`, into the body of a
/// `POST`.
pub open spec fn placed(method: Method, params: Option<ParamsView>) -> PayloadView {
    match params {
        None => PayloadView::Empty,
        Some(p) => match method {
            Method::Get => PayloadView::Query(p),
            Method::Post => PayloadView::Json(p),
        },
    }
}

/// What an optional [`Params`] says.
pub open spec fn params_view(params: Option<Params>) -> Option<ParamsView> {
    match params {
        Some(p) => Some(p@),
        None => None,
    }
}

/// A header.
pub fn header(name: &str, value: &str) -> (made: Header)
    ensures
        made@ == (name@, value@),
{
    Header { name: String::from_str(name), value: String::from_str(value) }
}

/// Puts a header at the end of a list.
fn push_header(headers: &mut Vec<Header>, name: &str, value: &str)
    ensures
        pairs(final(headers)@) == pairs(old(headers)@).push((name@, value@)),
{
    let added = header(name, value);
    headers.push(added);
    assert(pairs(headers@) =~= pairs(old(headers)@).push((name@, value@)));
}

/// The base headers.
pub fn base_header_list() -> (headers: Vec<Header>)
    ensures
        pairs(headers@) == base_headers(),
{
    let mut headers: Vec<Header> = Vec::new();
    assert(pairs(headers@) =~= Seq::empty());
    push_header(
        &mut headers,
        "User-Agent",
        "Mozilla/5.0 (Windows NT 10.0; Win64; x64) AppleWebKit/537.36 (KHTML, like Gecko) Chrome/58.0.3029.110 Safari/537.3",
    );
    push_header(&mut headers, "Accept-Language", "en-US,en;q=0.5");
    push_header(&mut headers, "Accept-Encoding", "gzip, deflate");
    push_header(&mut headers, "Referer", "https://paybyphone.com/");
    push_header(&mut headers, "Origin", "https://paybyphone.com");
    push_header(&mut headers, "DNT", "1");
    push_header(&mut headers, "Connection", "keep-alive");
    push_header(&mut headers, "Accept", "application/json, text/plain, */*");
    assert(pairs(headers@) =~= base_headers());
    headers
}

/// The headers of a call made for a login.
pub fn authenticated_header_list(api_key: &str, token_type: &str, access_token: &str) -> (headers:
    Vec<Header>)
    ensures
        pairs(headers@) == authenticated_headers(api_key@, token_type@, access_token@),
{
    let mut headers = base_header_list();
    push_header(&mut headers, "x-pbp-version", "2");
    push_header(&mut headers, "x-api-key", api_key);
    let mut authorization = String::from_str(token_type);
    authorization.append(" ");
    authorization.append(access_token);
    push_header(&mut headers, "authorization", authorization.as_str());
    assert(pairs(headers@) =~= authenticated_headers(api_key@, token_type@, access_token@));
    headers
}

/// The headers of the call that asks for a token.
pub fn token_header_list() -> (headers: Vec<Header>)
    ensures
        pairs(headers@) == token_headers(),
{
    let mut headers = base_header_list();
    push_header(&mut headers, "X-Pbp-ClientType", "WebApp");
    assert(pairs(headers@) =~= token_headers());
    headers
}

/// Places parameters by the method of the call.
pub fn place(method: Method, params: Option<Params>) -> (payload: Payload)
    ensures
        payload@ == placed(method, params_view(params)),
{
    match params {
        None => Payload::Empty,
        Some(p) => match method {
            Method::Get => Payload::Query(p),
            Method::Post => Payload::Json(p),
        },
    }
}

} // verus!
