//! Requests and responses as plain values.
//!
//! The client never looks inside a connection: it builds a [`Request`], hands
//! it out to be fetched, and later reads a [`Response`]. Requests start from
//! the defaults of `ehttp`, so that what is built here is what `ehttp` would
//! have built.

use vstd::prelude::*;
use vstd::utf8::decode_utf8;
use vstd::utf8::valid_utf8;

verus! {

/// An HTTP request that is ready to be sent.
#[derive(Debug, PartialEq, Eq)]
pub struct Request {
    /// "GET", "POST", "DELETE".
    pub method: String,
    pub url: String,
    pub body: Vec<u8>,
    /// Name and value of each header, in the order in which they were added.
    /// A name may occur more than once.
    pub headers: Vec<(String, String)>,
}

/// A [`Request`] as mathematics.
pub struct RequestView {
    pub method: Seq<char>,
    pub url: Seq<char>,
    pub body: Seq<u8>,
    pub headers: Seq<(Seq<char>, Seq<char>)>,
}

impl RequestView {
    /// A `GET` request as `ehttp` creates it.
    pub open spec fn get(url: Seq<char>) -> RequestView {
        RequestView {
            method: "GET"@,
            url,
            body: Seq::empty(),
            headers: seq![("Accept"@, "*/*"@)],
        }
    }

    /// A `POST` request as `ehttp` creates it.
    pub open spec fn post(url: Seq<char>, body: Seq<u8>) -> RequestView {
        RequestView {
            method: "POST"@,
            url,
            body,
            headers: seq![("Accept"@, "*/*"@), ("Content-Type"@, "text/plain; charset=utf-8"@)],
        }
    }

    /// The request with one more header after those it has.
    pub open spec fn with_header(self, name: Seq<char>, value: Seq<char>) -> RequestView {
        RequestView { headers: self.headers.push((name, value)), ..self }
    }

    /// The request under another method.
    pub open spec fn with_method(self, method: Seq<char>) -> RequestView {
        RequestView { method, ..self }
    }

    /// Whether a header with this name and value is among the headers.
    pub open spec fn has_header(self, name: Seq<char>, value: Seq<char>) -> bool {
        self.headers.contains((name, value))
    }
}

impl View for Request {
    type V = RequestView;

    open spec fn view(&self) -> RequestView {
        RequestView {
            method: self.method@,
            url: self.url@,
            body: self.body@,
            headers: self.headers.deep_view(),
        }
    }
}

/// What the client reads of a completed fetch.
#[derive(Debug, PartialEq, Eq)]
pub struct Response {
    /// Whether the status code was a 2xx.
    pub ok: bool,
    pub status: u16,
    pub status_text: String,
    /// The body as it arrived.
    pub bytes: Vec<u8>,
}

impl Response {
    /// The body as text, where it is valid UTF-8.
    pub open spec fn text_of(&self) -> Option<Seq<char>> {
        if valid_utf8(self.bytes@) {
            Some(decode_utf8(self.bytes@))
        } else {
            None
        }
    }

    /// The body as text, where it is valid UTF-8.
    pub fn text(&self) -> (text: Option<String>)
        ensures
            match self.text_of() {
                Some(expected) => text matches Some(text) && text@ == expected,
                None => text is None,
            },
    {
        body_text(self)
    }
}

/// `ehttp::Response::text`: the body as text where the bytes are valid
/// UTF-8, and nothing where they are not.
#[verifier::external_body]
pub(crate) fn body_text(response: &Response) -> (text: Option<String>)
    ensures
        text is Some <==> valid_utf8(response.bytes@),
        text matches Some(text) ==> text@ == decode_utf8(response.bytes@),
{
    let response = ehttp::Response {
        url: String::new(),
        ok: response.ok,
        status: response.status,
        status_text: response.status_text.clone(),
        headers: ehttp::Headers::default(),
        bytes: response.bytes.clone(),
    };
    response.text().map(str::to_owned)
}

/// `ehttp::Request::get`: the method is "GET", the URL is the one given, the
/// body is empty and the only header is `Accept: */*`.
#[verifier::external_body]
pub(crate) fn get(url: String) -> (request: Request)
    ensures
        request@ == RequestView::get(url@),
{
    let r = ehttp::Request::get(url);
    Request { method: r.method, url: r.url, body: r.body, headers: r.headers.headers }
}

/// `ehttp::Request::post`: the method is "POST", URL and body are those given,
/// and the headers are `Accept: */*` and a plain-text `Content-Type`, in this
/// order.
#[verifier::external_body]
pub(crate) fn post(url: String, body: Vec<u8>) -> (request: Request)
    ensures
        request@ == RequestView::post(url@, body@),
{
    let r = ehttp::Request::post(url, body);
    Request { method: r.method, url: r.url, body: r.body, headers: r.headers.headers }
}

/// `ehttp::Headers::insert`: the pair is added after the headers that are
/// there, whether or not the name occurs among them.
#[verifier::external_body]
pub(crate) fn insert_header(headers: Vec<(String, String)>, name: &str, value: String) -> (inserted:
    Vec<(String, String)>)
    ensures
        inserted.deep_view() == headers.deep_view().push((name@, value@)),
{
    let mut headers = ehttp::Headers { headers };
    headers.insert(name, value);
    headers.headers
}

impl Request {
    /// The request with one more header after those it has.
    pub fn with_header(self, name: &str, value: String) -> (request: Request)
        ensures
            request@ == self@.with_header(name@, value@),
    {
        Request {
            method: self.method,
            url: self.url,
            body: self.body,
            headers: insert_header(self.headers, name, value),
        }
    }

    /// The request under another method, all else unchanged.
    pub fn with_method(self, method: &str) -> (request: Request)
        ensures
            request@ == self@.with_method(method@),
    {
        Request {
            method: String::from_str(method),
            url: self.url,
            body: self.body,
            headers: self.headers,
        }
    }
}

} // verus!
