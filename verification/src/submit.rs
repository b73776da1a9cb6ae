//! Handing a record in, and reading what the service made of it.

use vstd::prelude::*;
use crate::download::Download;
use crate::download::Promise;
use crate::download::Status;
use crate::download::StatusView;
use crate::http::Response;
use crate::login::Session;
use crate::view::queue;
use crate::view::Frame;
use crate::view::Slot;
use crate::view::posting;
use crate::view::sent;

verus! {

/// What happened since the last frame of a form.
pub struct FormInput {
    /// "Back" was pressed.
    pub back: bool,
    /// "Submit" was pressed: the record as JSON text, or the message with
    /// which serializing it failed.
    pub submit: Option<Result<Vec<u8>, String>>,
}

/// The text with which the service refused a request: the body of its
/// response, or `fallback` where the body is no text.
pub open spec fn refused_text(response: Response, fallback: Seq<char>) -> Seq<char> {
    match response.text_of() {
        Some(text) => text,
        None => fallback,
    }
}

/// What is shown for a slot that a record was handed in on: `success` once
/// the service accepted, its refusal once it refused, else what is shown
/// for any slot without a response.
pub open spec fn verdict(slot: Download, success: StatusView, fallback: Seq<char>) -> StatusView {
    match slot.response() {
        Some(response) => if response.ok {
            success
        } else {
            StatusView::Label(refused_text(response, fallback))
        },
        None => slot.waiting(),
    }
}

/// The slot once a record was handed in on it, if one was and it could be
/// serialized: it waits, for the fetch that it waited for already or for the
/// one that hands the record in.
pub open spec fn submitted(slot: Download, submit: Option<Result<Vec<u8>, String>>) -> Download {
    match submit {
        Some(Ok(_)) => Download { promise: Some(Promise::Pending), path: slot.path },
        _ => slot,
    }
}

/// The message of a form once a record was handed in, if one was: the
/// message with which serializing failed, else the message that was there.
pub open spec fn kept(error: String, submit: Option<Result<Vec<u8>, String>>) -> String {
    match submit {
        Some(Err(message)) => message,
        _ => error,
    }
}

/// The note that `success` stands for: a label, or none.
pub open spec fn success_note(success: Option<&str>) -> StatusView {
    match success {
        Some(words) => StatusView::Label(words@),
        None => StatusView::Quiet,
    }
}

/// Reads what a slot holds after a record was handed in on it.
pub(crate) fn read_verdict(slot: &Download, success: Option<&str>, fallback: &str) -> (read: (
    bool,
    Status,
))
    ensures
        read.0 == slot.succeeded(),
        read.1@ == verdict(*slot, success_note(success), fallback@),
{
    let (response, note) = slot.run_when_downloaded();
    match response {
        Some(response) => {
            if response.ok {
                match success {
                    Some(words) => (true, Status::Label(String::from_str(words))),
                    None => (true, Status::Quiet),
                }
            } else {
                match response.text() {
                    Some(text) => (false, Status::Label(text)),
                    None => (false, Status::Label(String::from_str(fallback))),
                }
            }
        },
        None => (false, note),
    }
}

/// Hands in a record on a slot, if there is one. On a slot that waits for a
/// fetch nothing goes out.
pub(crate) fn hand_in(
    slot: &mut Download,
    error: &mut String,
    name: Slot,
    submit: Option<Result<Vec<u8>, String>>,
    url: String,
    session: &Session,
    frame: &mut Frame,
)
    ensures
        *final(slot) == submitted(*old(slot), submit),
        *final(error) == kept(*old(error), submit),
        sent(final(frame).fetches@) == sent(old(frame).fetches@) + posting(
            name,
            *old(slot),
            submit,
            url@,
            *session,
        ),
        final(frame).notes == old(frame).notes,
        final(frame).next == old(frame).next,
{
    match submit {
        Some(json) => {
            match slot.post_schema(json, url, session) {
                Ok(started) => {
                    queue(&mut frame.fetches, name, started);
                },
                Err(message) => {
                    *error = message;
                },
            }
        },
        None => {},
    }
    proof {
        assert(sent(frame.fetches@) =~= sent(old(frame).fetches@) + posting(
            name,
            *old(slot),
            submit,
            url@,
            *session,
        ));
    }
}

} // verus!
