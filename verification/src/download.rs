//! One slot for one fetch at a time.
//!
//! A [`Download`] stands for a logical operation of a screen. It is idle,
//! waits for a fetch, or holds what the fetch gave. Starting a fetch hands
//! the request out; whoever performs it reports back with
//! [`Download::resolve`]. While a slot waits, nothing more is started on
//! it: whatever asks for another fetch is told that none goes out.

use vstd::prelude::*;
use crate::http::Request;
use crate::http::RequestView;
use crate::http::Response;
use crate::http::get;
use crate::http::post;
use crate::login::Session;
use crate::text::join;

verus! {

/// The result slot of a fetch that was started.
#[derive(Debug, PartialEq, Eq)]
pub enum Promise {
    /// The fetch has not come back.
    Pending,
    /// The fetch came back with a response, or failed with a message.
    Ready(Result<Response, String>),
}

/// What a screen shows in place of, or beside, the data of a slot.
#[derive(Debug, PartialEq, Eq)]
pub enum Status {
    Quiet,
    Spinner,
    Label(String),
}

/// A [`Status`] as mathematics.
pub enum StatusView {
    Quiet,
    Spinner,
    Label(Seq<char>),
}

impl View for Status {
    type V = StatusView;

    open spec fn view(&self) -> StatusView {
        match self {
            Status::Quiet => StatusView::Quiet,
            Status::Spinner => StatusView::Spinner,
            Status::Label(text) => StatusView::Label(text@),
        }
    }
}

/// A download slot.
#[derive(Debug, PartialEq, Eq)]
pub struct Download {
    /// `None` while the slot is idle.
    pub promise: Option<Promise>,
    /// The path that the slot was made for.
    pub path: String,
}

/// The request with the header that lets a browser accept the answer from
/// another origin.
pub open spec fn outbound(request: RequestView) -> RequestView {
    request.with_header("Access-Control-Allow-Origin"@, "*"@)
}

/// What goes out when a fetch of `request` is asked of `slot`: the request,
/// unless the slot waits for a fetch.
pub open spec fn going_out(slot: Download, request: RequestView) -> Option<RequestView> {
    if slot.pending() {
        None
    } else {
        Some(outbound(request))
    }
}

/// Whether `started` is what goes out when a fetch of `request` is asked of
/// `slot`.
pub open spec fn goes_out(slot: Download, request: RequestView, started: Option<Request>) -> bool {
    match going_out(slot, request) {
        Some(expected) => started matches Some(sent) && sent@ == expected,
        None => started is None,
    }
}

/// The request that carries a record to the service: a `POST` of the JSON
/// text, marked as JSON and authorized by the session.
pub open spec fn schema_post(url: Seq<char>, json: Seq<u8>, session: Session) -> RequestView {
    outbound(
        RequestView::post(url, json).with_header("Content-Type"@, "application/json"@).with_header(
            "Authorization"@,
            session.access_token.authorization(),
        ),
    )
}

/// The request that deletes a resource: an authorized `DELETE` without body,
/// which otherwise has the shape of a `POST`.
pub open spec fn schema_delete(url: Seq<char>, session: Session) -> RequestView {
    outbound(
        RequestView::post(url, Seq::empty()).with_method("DELETE"@).with_header(
            "Authorization"@,
            session.access_token.authorization(),
        ),
    )
}

/// The request that reads a resource: an authorized `GET`.
pub open spec fn schema_get(url: Seq<char>, session: Session) -> RequestView {
    outbound(
        RequestView::get(url).with_header("Authorization"@, session.access_token.authorization()),
    )
}

/// What is shown for a slot while its response is read as a list.
pub open spec fn note_of<T>(slot: Download, parsed: Option<Result<Vec<T>, String>>) -> StatusView {
    slot.reading(
        match parsed {
            Some(Err(error)) => Some(error@),
            _ => None,
        },
    )
}

impl Default for Download {
    fn default() -> (slot: Self)
        ensures
            slot.promise is None,
            slot.path@ == "/me"@,
    {
        Download { promise: None, path: String::from_str("/me") }
    }
}

impl Clone for Download {
    /// A copy is idle: the fetch in flight, and its result, stay with the
    /// slot that was copied.
    fn clone(&self) -> (copy: Self)
        ensures
            copy.promise is None,
            copy.path == self.path,
    {
        Download { promise: None, path: self.path.clone() }
    }
}

impl Download {
    /// Whether a fetch was started and has not come back.
    pub open spec fn pending(&self) -> bool {
        self.promise == Some(Promise::Pending)
    }

    /// The response that the slot holds, if the fetch came back with one.
    pub open spec fn response(&self) -> Option<Response> {
        match self.promise {
            Some(Promise::Ready(Ok(response))) => Some(response),
            _ => None,
        }
    }

    /// The message with which the fetch failed, if it did.
    pub open spec fn failure(&self) -> Option<String> {
        match self.promise {
            Some(Promise::Ready(Err(message))) => Some(message),
            _ => None,
        }
    }

    /// Whether the slot holds a response with a 2xx status.
    pub open spec fn succeeded(&self) -> bool {
        self.response() matches Some(response) && response.ok
    }

    /// What [`Download::deserialize_when_got`] shows where it has no value to
    /// give.
    pub open spec fn reading(&self, parse_error: Option<Seq<char>>) -> StatusView {
        match self.promise {
            None => StatusView::Quiet,
            Some(Promise::Pending) => StatusView::Spinner,
            Some(Promise::Ready(Err(message))) => StatusView::Label(message@),
            Some(Promise::Ready(Ok(response))) => if !response.ok {
                StatusView::Label("Server responded with "@ + response.status_text@)
            } else if response.text_of() is None {
                StatusView::Label("Empty response from server"@)
            } else {
                match parse_error {
                    Some(error) => StatusView::Label(
                        "Failed to parse response due to: "@ + error,
                    ),
                    None => StatusView::Quiet,
                }
            },
        }
    }

    /// Whether the slot holds a successful response with a text to parse.
    pub open spec fn readable(&self) -> bool {
        self.response() matches Some(response) && response.ok && response.text_of() is Some
    }

    /// What [`Download::run_when_downloaded`] shows where it has no response
    /// to give.
    pub open spec fn waiting(&self) -> StatusView {
        match self.promise {
            None => StatusView::Quiet,
            Some(Promise::Pending) => StatusView::Spinner,
            Some(Promise::Ready(Err(message))) => StatusView::Label(message@),
            Some(Promise::Ready(Ok(_))) => StatusView::Quiet,
        }
    }

    /// The slot once a fetch was asked of it: it waits, for the fetch that
    /// it waited for already or for the one that was started.
    pub open spec fn asked(self) -> Download {
        Download { promise: Some(Promise::Pending), path: self.path }
    }

    /// Whether the slot is `before` once `outcome` was reported to it: a
    /// pending slot holds the outcome, any other slot is as it was.
    pub open spec fn resolved_from(&self, before: Download, outcome: Result<Response, String>) -> bool {
        &&& self.path == before.path
        &&& self.promise == if before.pending() {
            Some(Promise::Ready(outcome))
        } else {
            before.promise
        }
    }

    /// An idle slot.
    pub fn new(path: String) -> (slot: Self)
        ensures
            slot.promise is None,
            slot.path == path,
    {
        Download { promise: None, path }
    }

    /// Starts a fetch of `request` unless the slot is in use.
    ///
    /// An idle slot becomes pending and the request to send is returned. A
    /// slot that waits for a fetch, or holds the result of one, is left as it
    /// is and nothing is to be sent.
    pub fn download_if_needed(&mut self, request: Request) -> (started: Option<Request>)
        ensures
            old(self).promise is Some ==> started is None && *final(self) == *old(self),
            old(self).promise is None ==> {
                &&& final(self).pending()
                &&& final(self).path == old(self).path
                &&& started matches Some(sent)
                &&& sent@ == outbound(request@)
            },
    {
        if self.promise.is_none() {
            self.download(request)
        } else {
            None
        }
    }

    /// Starts a fetch of `request` unless the slot waits for one.
    ///
    /// A slot that waits for a fetch is left as it is and nothing is to be
    /// sent: the fetch on its way is the one that counts. An idle slot
    /// becomes pending, and so does a slot that holds the result of an
    /// earlier fetch, which is dropped; the request to send is returned.
    pub fn download(&mut self, request: Request) -> (started: Option<Request>)
        ensures
            old(self).pending() ==> started is None && *final(self) == *old(self),
            !old(self).pending() ==> {
                &&& final(self).pending()
                &&& final(self).path == old(self).path
                &&& started matches Some(sent)
                &&& sent@ == outbound(request@)
            },
            *final(self) == old(self).asked(),
            goes_out(*old(self), request@, started),
    {
        let waits = match &self.promise {
            Some(Promise::Pending) => true,
            _ => false,
        };
        if waits {
            None
        } else {
            self.promise = Some(Promise::Pending);
            Some(request.with_header("Access-Control-Allow-Origin", String::from_str("*")))
        }
    }

    /// Records the outcome of the fetch that the slot waits for. A slot that
    /// waits for none ignores it: the fetch was dropped in the meantime.
    /// Whether an outcome is that of the fetch that is awaited, and not of
    /// one that left earlier under the same name, is told by its number
    /// before it comes here: see [`crate::ticket`].
    pub fn resolve(&mut self, outcome: Result<Response, String>)
        ensures
            final(self).resolved_from(*old(self), outcome),
    {
        let waits = match &self.promise {
            Some(Promise::Pending) => true,
            _ => false,
        };
        if waits {
            self.promise = Some(Promise::Ready(outcome));
        }
    }

    /// Posts a record, given as the JSON text it was serialized to, unless
    /// the slot waits for a fetch; or gives back the message with which
    /// serializing failed.
    pub fn post_schema(
        &mut self,
        json: Result<Vec<u8>, String>,
        url: String,
        session: &Session,
    ) -> (started: Result<Option<Request>, String>)
        ensures
            match json {
                Ok(body) => {
                    &&& *final(self) == old(self).asked()
                    &&& started matches Ok(started)
                    &&& match started {
                        Some(sent) => !old(self).pending() && sent@ == schema_post(
                            url@,
                            body@,
                            *session,
                        ),
                        None => old(self).pending(),
                    }
                },
                Err(error) => {
                    &&& *final(self) == *old(self)
                    &&& started == Err::<Option<Request>, String>(error)
                },
            },
    {
        match json {
            Ok(body) => {
                let request = post(url, body).with_header(
                    "Content-Type",
                    String::from_str("application/json"),
                );
                let request = session.access_token.add_authorization_header(request);
                Ok(self.download(request))
            },
            Err(error) => Err(error),
        }
    }

    /// Starts the fetch that deletes the resource at `url`, unless the slot
    /// waits for a fetch.
    pub fn delete_schema(&mut self, url: String, session: &Session) -> (started: Option<Request>)
        ensures
            *final(self) == old(self).asked(),
            match started {
                Some(sent) => !old(self).pending() && sent@ == schema_delete(url@, *session),
                None => old(self).pending(),
            },
    {
        let request = post(url, Vec::new()).with_method("DELETE");
        let request = session.access_token.add_authorization_header(request);
        self.download(request)
    }

    /// Starts the fetch that reads the resource at `url`, unless the slot
    /// waits for a fetch.
    pub fn get_schema(&mut self, url: String, session: &Session) -> (started: Option<Request>)
        ensures
            *final(self) == old(self).asked(),
            match started {
                Some(sent) => !old(self).pending() && sent@ == schema_get(url@, *session),
                None => old(self).pending(),
            },
    {
        let request = get(url);
        let request = session.access_token.add_authorization_header(request);
        self.download(request)
    }

    /// Gives the value that the response was parsed to, or says what to show
    /// instead.
    ///
    /// `parsed` is what parsing the text of the response gave; it is read
    /// only where the slot holds a successful response with a text. Without
    /// it such a slot shows nothing.
    pub fn deserialize_when_got<T>(&self, parsed: Option<Result<T, String>>) -> (got: (
        Option<T>,
        Status,
    ))
        ensures
            got.0 == (match parsed {
                Some(Ok(value)) if self.readable() => Some(value),
                _ => None::<T>,
            }),
            got.1@ == self.reading(
                match parsed {
                    Some(Err(error)) => Some(error@),
                    _ => None,
                },
            ),
    {
        match &self.promise {
            None => (None, Status::Quiet),
            Some(Promise::Pending) => (None, Status::Spinner),
            Some(Promise::Ready(Err(message))) => (None, Status::Label(message.clone())),
            Some(Promise::Ready(Ok(response))) => {
                if !response.ok {
                    (
                        None,
                        Status::Label(
                            join("Server responded with ", response.status_text.as_str()),
                        ),
                    )
                } else if response.text().is_none() {
                    (None, Status::Label(String::from_str("Empty response from server")))
                } else {
                    match parsed {
                        Some(Ok(value)) => (Some(value), Status::Quiet),
                        Some(Err(error)) => (
                            None,
                            Status::Label(
                                join("Failed to parse response due to: ", error.as_str()),
                            ),
                        ),
                        None => (None, Status::Quiet),
                    }
                }
            },
        }
    }

    /// Gives the response that the slot holds, or says what to show while
    /// there is none.
    pub fn run_when_downloaded(&self) -> (got: (Option<&Response>, Status))
        ensures
            got.0 == (match self.response() {
                Some(response) => Some(&response),
                None => None,
            }),
            got.1@ == self.waiting(),
    {
        match &self.promise {
            None => (None, Status::Quiet),
            Some(Promise::Pending) => (None, Status::Spinner),
            Some(Promise::Ready(Err(message))) => (None, Status::Label(message.clone())),
            Some(Promise::Ready(Ok(response))) => (Some(response), Status::Quiet),
        }
    }
}

} // verus!
