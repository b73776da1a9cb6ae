//! One list of a ranking on the screen that edits it: read, shown, and
//! fetched anew after every deletion.

use vstd::prelude::*;
use crate::download::Download;
use crate::download::Promise;
use crate::download::Status;
use crate::download::StatusView;
use crate::download::schema_delete;
use crate::download::schema_get;
use crate::http::RequestView;
use crate::http::Response;
use crate::login::Session;
use crate::schema::Ranking;
use crate::section::Listed;
use crate::section::Section;
use crate::text::decimal;
use crate::text::push_decimal;
use crate::view::queue;
use crate::view::Frame;
use crate::view::Slot;
use crate::view::sent;
use crate::view::shown;

verus! {

/// What happened in one list of a ranking since the last frame.
pub struct SectionInput<T> {
    /// "Create new" was pressed.
    pub create: bool,
    /// "Delete" was pressed for the item at this place.
    pub delete: Option<usize>,
    /// What parsing the fetched list gave.
    pub parsed: Option<Result<Vec<T>, String>>,
}

/// The message for a deletion that the service refused.
pub open spec fn response_code(response: Response) -> Seq<char> {
    "Got response code "@ + decimal(response.status as nat) + " "@ + response.status_text@
}

/// Whether an item of the list is to be deleted: the list is known and the
/// place is one of it.
pub open spec fn deleting<T>(value: Option<Vec<T>>, delete: Option<usize>) -> bool {
    value matches Some(list) && delete matches Some(place) && place < list@.len()
}

/// The slot of a list once the deletion, if there is one, was asked for: it
/// waits, for the fetch that it waited for already or for the deletion.
pub open spec fn asked<T>(value: Option<Vec<T>>, slot: Download, delete: Option<usize>) -> Download {
    if deleting(value, delete) {
        Download { promise: Some(Promise::Pending), path: slot.path }
    } else {
        slot
    }
}

/// A list and its slot after one frame.
///
/// A list that is known stays until the service has deleted an item: then
/// it is forgotten and fetched anew. A list that is not known is taken from
/// the parsed response, and its slot is idle from then on.
pub open spec fn section_after<T>(value: Option<Vec<T>>, slot: Download, input: SectionInput<T>) -> (
    Option<Vec<T>>,
    Download,
) {
    match value {
        Some(_) => {
            let asked = asked(value, slot, input.delete);
            if asked.succeeded() {
                (None, Download { promise: Some(Promise::Pending), path: slot.path })
            } else {
                (value, asked)
            }
        },
        None => match input.parsed {
            Some(Ok(fresh)) if slot.readable() => (
                Some(fresh),
                Download { promise: None, path: slot.path },
            ),
            _ => (None, slot),
        },
    }
}

/// What a frame shows for a list.
pub open spec fn section_note<T>(value: Option<Vec<T>>, slot: Download, input: SectionInput<T>)
    -> StatusView {
    match value {
        Some(_) => {
            let asked = asked(value, slot, input.delete);
            match asked.response() {
                Some(response) => if response.ok {
                    StatusView::Quiet
                } else {
                    StatusView::Label(response_code(response))
                },
                None => asked.waiting(),
            }
        },
        None => crate::download::note_of(slot, input.parsed),
    }
}

/// The fetch that a frame starts for a list: the deletion of an item,
/// unless the slot waits for a fetch; or the fetch of the list after a
/// deletion.
pub open spec fn section_fetches<T: Listed>(
    section: Section,
    ranking_id: int,
    base_url: Seq<char>,
    session: Session,
    value: Option<Vec<T>>,
    slot: Download,
    input: SectionInput<T>,
) -> Seq<(Slot, RequestView)> {
    if deleting(value, input.delete) && slot.pending() {
        Seq::empty()
    } else if deleting(value, input.delete) {
        seq![
            (
                section.slot_of(),
                schema_delete(
                    section.delete_address(
                        base_url,
                        ranking_id,
                        value->0@[input.delete->0 as int].key_text(),
                    ),
                    session,
                ),
            ),
        ]
    } else if value is Some && slot.succeeded() {
        seq![(section.slot_of(), schema_get(section.list_address(base_url, ranking_id), session))]
    } else {
        Seq::empty()
    }
}

/// One frame of one list of a ranking: starts the deletion that was asked
/// for, reads what the slot holds, and notes on `frame` what to show and
/// what to fetch.
pub fn show_section_list<T: Listed>(
    section: Section,
    ranking: &Ranking,
    base_url: &str,
    session: &Session,
    value: &mut Option<Vec<T>>,
    download: &mut Download,
    input: SectionInput<T>,
    frame: &mut Frame,
)
    ensures
        (*final(value), *final(download)) == section_after(*old(value), *old(download), input),
        shown(final(frame).notes@) == shown(old(frame).notes@).push(
            section_note(*old(value), *old(download), input),
        ),
        sent(final(frame).fetches@) == sent(old(frame).fetches@) + section_fetches(
            section,
            ranking.ranking_id as int,
            base_url@,
            *session,
            *old(value),
            *old(download),
            input,
        ),
        final(frame).next == old(frame).next,
{
    let note = match value.take() {
        Some(list) => {
            match input.delete {
                Some(place) => {
                    if place < list.len() {
                        let key = list[place].key();
                        let url = section.delete_url(base_url, ranking.ranking_id, key.as_str());
                        let started = download.delete_schema(url, session);
                        queue(&mut frame.fetches, section.slot(), started);
                    }
                },
                None => {},
            }
            let (response, note) = download.run_when_downloaded();
            let (deleted, note) = match response {
                Some(response) => {
                    if response.ok {
                        (true, Status::Quiet)
                    } else {
                        let mut words = String::from_str("Got response code ");
                        push_decimal(&mut words, response.status as u64);
                        words.append(" ");
                        words.append(response.status_text.as_str());
                        (false, Status::Label(words))
                    }
                },
                None => (false, note),
            };
            if deleted {
                let url = section.list_url(base_url, ranking.ranking_id);
                let started = download.get_schema(url, session);
                queue(&mut frame.fetches, section.slot(), started);
            } else {
                *value = Some(list);
            }
            note
        },
        None => {
            let (fresh, note) = download.deserialize_when_got(input.parsed);
            if fresh.is_some() {
                *value = fresh;
                download.promise = None;
            }
            note
        },
    };
    frame.notes.push(note);
    proof {
        assert(shown(frame.notes@) =~= shown(old(frame).notes@).push(
            section_note(*old(value), *old(download), input),
        ));
        assert(sent(frame.fetches@) =~= sent(old(frame).fetches@) + section_fetches(
            section,
            ranking.ranking_id as int,
            base_url@,
            *session,
            *old(value),
            *old(download),
            input,
        ));
    }
}

} // verus!
