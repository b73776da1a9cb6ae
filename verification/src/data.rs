//! The controller of the screens.
//!
//! One screen is shown at a time. Each frame the controller asks it what it
//! is filled from, fetches that through its own slot, and fills the screen
//! once the response is there. A response that the screen cannot be filled
//! from is shown and leaves the screen as it is. A fetch that failed is not
//! tried again until someone asks for it.

use vstd::prelude::*;
use crate::download::Download;
use crate::download::Promise;
use crate::download::Status;
use crate::download::StatusView;
use crate::download::note_of;
use crate::download::outbound;
use crate::http::RequestView;
use crate::http::Response;
use crate::login::Session;
use crate::ranking_list::RankingList;
use crate::schema::Ranking;
use crate::ticket::Tickets;
use crate::ticket::lemma_later_adds;
use crate::ticket::later;
use crate::ticket::slots_of;
use crate::view::Fetch;
use crate::view::Frame;
use crate::view::Navigation;
use crate::view::Screen;
use crate::view::ScreenInput;
use crate::view::Slot;
use crate::view::sent;
use crate::view::shown;

verus! {

/// What happened since the last frame of the controller.
pub struct DataInput {
    /// "Reload" was pressed.
    pub reload: bool,
    /// What parsing the response of the controller's slot as a list of
    /// rankings gave.
    pub page: Option<Result<Vec<Ranking>, String>>,
    /// What happened on the screen.
    pub screen: ScreenInput,
}

/// A change of screen that has taken place.
pub struct Departure {
    /// The screen that was left, as its last frame left it.
    pub left: Screen,
    /// The fetches that the new screen starts with. Whatever was in flight
    /// for the old one is of no use any more.
    pub fetches: Vec<Fetch>,
}

/// What one frame of the controller asks of its surroundings.
pub struct Turn {
    /// What the controller shows while its screen waits to be filled.
    pub notes: Vec<Status>,
    /// The fetch that fills the screen, if it is to be started.
    pub fetches: Vec<Fetch>,
    /// What the screen shows.
    pub screen_notes: Vec<Status>,
    /// The fetches that the screen starts.
    pub screen_fetches: Vec<Fetch>,
    /// The change of screen, if the frame ended in one.
    pub turned: Option<Departure>,
    /// The numbers of the fetches that leave with this frame: first those
    /// of the controller, then those of the screen, then those that a new
    /// screen starts with. An outcome is reported under the number of its
    /// fetch.
    pub numbers: Vec<u64>,
}

impl Turn {
    /// The frame of the screen that this frame of the controller went
    /// through, where `current` is the screen that the controller shows
    /// after it.
    pub open spec fn frame_of(self, current: Screen) -> Frame {
        Frame {
            notes: self.screen_notes,
            fetches: self.screen_fetches,
            next: match self.turned {
                Some(departure) => Some(Navigation { screen: current, fetches: departure.fetches }),
                None => None,
            },
        }
    }

    /// The number of fetches that leave with this frame.
    pub open spec fn leaving(self) -> nat {
        self.fetches@.len() + self.screen_fetches@.len() + match self.turned {
            Some(departure) => departure.fetches@.len(),
            None => 0,
        }
    }

    /// The tickets after this frame, where they were `before`. Every fetch
    /// that leaves has its number. The slots of the controller and of the
    /// screen await theirs, unless the screen was left: then only the slots
    /// of the new screen await anything.
    pub open spec fn tickets_after(self, before: Tickets) -> Tickets {
        let stayed = before.issued_for_all(slots_of(self.fetches@)).issued_for_all(
            slots_of(self.screen_fetches@),
        );
        match self.turned {
            Some(departure) => stayed.forgotten().issued_for_all(slots_of(departure.fetches@)),
            None => stayed,
        }
    }

    /// The screen that had its frame, as the frame left it, where `current`
    /// is the screen that the controller shows after it.
    pub open spec fn screen_after(self, current: Screen) -> Screen {
        match self.turned {
            Some(departure) => departure.left,
            None => current,
        }
    }
}

/// The controller: the screen that is shown, and the slot through which it
/// is filled.
pub struct Data {
    pub base_url: String,
    pub download: Download,
    pub current_view: Screen,
    /// Whether the screen has what it is filled from.
    pub parsed: bool,
    /// The message of the fetch that failed, until a reload or a change of
    /// screen.
    pub failure: Option<String>,
    /// The numbers of the fetches that are awaited.
    pub tickets: Tickets,
}

impl Data {
    /// The invariant of the controller: that of its screen.
    pub open spec fn wf(self) -> bool {
        self.current_view.wf()
    }

    /// The controller once "Reload" was pressed, if it was: the slot is
    /// idle, the screen is to be filled again, and a failure is forgotten.
    pub open spec fn reloaded(self, reload: bool) -> Data {
        if reload {
            Data {
                download: Download { promise: None, path: self.download.path },
                parsed: false,
                failure: None,
                ..self
            }
        } else {
            self
        }
    }

    /// Whether a frame starts a fetch: the screen is filled from a request,
    /// no fetch has failed, and the slot is idle.
    pub open spec fn owes(self, session: Session) -> bool {
        &&& self.current_view.request_of(self.base_url@, session) is Some
        &&& self.failure is None
        &&& self.download.promise is None
    }

    /// The controller once the fetch that it owes was started.
    pub open spec fn started(self, session: Session) -> Data {
        if self.owes(session) {
            Data {
                download: Download { promise: Some(Promise::Pending), path: self.download.path },
                ..self
            }
        } else {
            self
        }
    }

    /// Whether the screen can be filled: the slot holds a successful
    /// response with a text, and the text was parsed to a list of rankings.
    pub open spec fn fills(self, page: Option<Result<Vec<Ranking>, String>>) -> bool {
        self.download.readable() && page matches Some(Ok(_))
    }

    /// The controller once it has read its slot.
    ///
    /// A screen that is filled from nothing has all it needs. A screen that
    /// waits to be filled is filled from a successful response whose text
    /// was parsed. Any other response leaves the screen, and the
    /// controller, as they are. A failed fetch leaves its message and an
    /// idle slot.
    pub open spec fn read(self, session: Session, page: Option<Result<Vec<Ranking>, String>>)
        -> Data {
        if self.current_view.request_of(self.base_url@, session) is None {
            Data { parsed: true, ..self }
        } else if self.parsed {
            self
        } else if self.download.failure() is Some {
            Data {
                download: Download { promise: None, path: self.download.path },
                failure: self.download.failure(),
                ..self
            }
        } else if self.fills(page) {
            Data { parsed: true, current_view: self.current_view.populated(page), ..self }
        } else {
            self
        }
    }

    /// The controller after one frame.
    pub open spec fn pumped(self, input: DataInput, session: Session) -> Data {
        self.reloaded(input.reload).started(session).read(session, input.page)
    }

    /// What the controller shows while its screen waits to be filled.
    ///
    /// While the slot is in use this is what any slot shows whose response
    /// is read as a list: a spinner while the fetch is on its way, the
    /// message of a fetch that failed, the status text of a response that
    /// the service refused, a message for a response without text, and the
    /// message of the parser where the text could not be parsed. While the
    /// slot is idle it is the message of the fetch that failed last, if one
    /// did.
    pub open spec fn note(self, page: Option<Result<Vec<Ranking>, String>>) -> StatusView {
        if self.download.promise is Some {
            note_of(self.download, page)
        } else {
            match self.failure {
                Some(message) => StatusView::Label(message@),
                None => StatusView::Quiet,
            }
        }
    }

    /// What a frame shows: nothing for a screen that is filled, or filled
    /// from nothing; else the state of the fetch.
    pub open spec fn notes(self, input: DataInput, session: Session) -> Seq<StatusView> {
        self.notes_with(input.reload, input.page, session)
    }

    /// [`Data::notes`] by the parts of the input that it depends on.
    pub open spec fn notes_with(
        self,
        reload: bool,
        page: Option<Result<Vec<Ranking>, String>>,
        session: Session,
    ) -> Seq<StatusView> {
        let begun = self.reloaded(reload).started(session);
        if begun.current_view.request_of(self.base_url@, session) is None || begun.parsed {
            Seq::empty()
        } else {
            seq![begun.note(page)]
        }
    }

    /// What a frame starts: the fetch that fills the screen, if the
    /// controller owes it.
    pub open spec fn fetches(self, input: DataInput, session: Session) -> Seq<(Slot, RequestView)> {
        self.fetches_with(input.reload, session)
    }

    /// [`Data::fetches`] by the part of the input that it depends on.
    pub open spec fn fetches_with(self, reload: bool, session: Session) -> Seq<(Slot, RequestView)> {
        let fresh = self.reloaded(reload);
        if fresh.owes(session) {
            seq![
                (Slot::Page, outbound(fresh.current_view.request_of(self.base_url@, session)->0)),
            ]
        } else {
            Seq::empty()
        }
    }

    /// The controller once `next` has taken over: the new screen waits to
    /// be filled, and what the slot held for the old one is dropped.
    pub open spec fn turned(self, next: Screen) -> Data {
        Data {
            current_view: next,
            parsed: false,
            download: Download { promise: None, path: self.download.path },
            failure: None,
            tickets: self.tickets.forgotten(),
            ..self
        }
    }

    /// A controller that shows an empty list of rankings of the service on
    /// this machine.
    pub fn default() -> (data: Self)
        ensures
            data.wf(),
            data.base_url@ == "http://127.0.0.1:8000"@,
            data.download.promise is None,
            data.current_view matches Screen::RankingList(list) && list.ranking_list@.len() == 0,
            !data.parsed,
            data.failure is None,
            data.tickets.issued == 0,
            data.tickets == data.tickets.forgotten(),
    {
        Data {
            base_url: String::from_str("http://127.0.0.1:8000"),
            download: Download::default(),
            current_view: Screen::RankingList(RankingList::default()),
            parsed: false,
            failure: None,
            tickets: Tickets::new(),
        }
    }

    /// The controller after the whole of a frame in which its screen has
    /// become `screen` and its tickets `tickets`: where the frame of the
    /// screen ended in a change of screen, `screen` has taken over.
    pub open spec fn shown_with(
        self,
        input: DataInput,
        session: Session,
        screen: Screen,
        turned: bool,
        tickets: Tickets,
    ) -> Data {
        if turned {
            Data { tickets, ..self.pumped(input, session).turned(screen) }
        } else {
            Data { current_view: screen, tickets, ..self.pumped(input, session) }
        }
    }

    /// One frame of the controller.
    ///
    /// First the controller does its own part, as [`Data::pumped`] says.
    /// Then the screen has its frame, whether or not it has been filled.
    /// If that frame ends in a change of screen, the new screen takes over
    /// and what the slot held is dropped: the new screen is fetched for in
    /// the next frame. Every fetch that leaves gets the next number, and
    /// its slot awaits it; after a change of screen only the slots of the
    /// new screen await anything.
    pub fn show(&mut self, input: DataInput, session: &Session) -> (turn: Turn)
        requires
            old(self).wf(),
        ensures
            final(self).wf(),
            shown(turn.notes@) == old(self).notes(input, *session),
            sent(turn.fetches@) == old(self).fetches(input, *session),
            old(self).pumped(input, *session).current_view.framed(
                input.screen,
                old(self).base_url@,
                *session,
                turn.screen_after(final(self).current_view),
                turn.frame_of(final(self).current_view),
            ),
            *final(self) == old(self).shown_with(
                input,
                *session,
                final(self).current_view,
                turn.turned is Some,
                turn.tickets_after(old(self).tickets),
            ),
            turn.numbers@ == old(self).tickets.numbers(turn.leaving()),
    {
        let DataInput { reload, page, screen } = input;
        let ghost pumped = self.pumped(input, *session);
        let pump = self.pump(reload, page, session);
        assert(*self == pumped);
        let frame = self.current_view.show(screen, self.base_url.as_str(), session);
        let Frame { notes, fetches, next } = frame;
        let mut numbers: Vec<u64> = Vec::new();
        let ghost first = self.tickets.issued;
        self.tickets.issue_all(&pump.fetches, &mut numbers);
        self.tickets.issue_all(&fetches, &mut numbers);
        let turned = match next {
            Some(navigation) => {
                let Navigation { screen, fetches } = navigation;
                let mut left = screen;
                std::mem::swap(&mut self.current_view, &mut left);
                self.parsed = false;
                self.download.promise = None;
                self.failure = None;
                self.tickets.forget();
                self.tickets.issue_all(&fetches, &mut numbers);
                Some(Departure { left, fetches })
            },
            None => None,
        };
        let turn = Turn {
            notes: pump.notes,
            fetches: pump.fetches,
            screen_notes: notes,
            screen_fetches: fetches,
            turned,
            numbers,
        };
        proof {
            assert(turn.frame_of(self.current_view) == frame);
            let a = turn.fetches@.len();
            let b = turn.screen_fetches@.len();
            let c: nat = (turn.leaving() - a - b) as nat;
            assert forall|k: int| 0 <= k < a + b + c implies turn.numbers@[k] == later(
                first,
                (k + 1) as nat,
            ) by {
                if k >= a + b {
                    lemma_later_adds(first, a, b);
                    lemma_later_adds(first, a + b, (k - a - b + 1) as nat);
                } else if k >= a {
                    lemma_later_adds(first, a, (k - a + 1) as nat);
                }
            }
            assert(turn.numbers@ =~= old(self).tickets.numbers(turn.leaving()));
        }
        turn
    }

    /// The controller's own part of a frame.
    ///
    /// A reload comes first. Then the screen is asked for its request. If
    /// there is one, and the slot is idle, and no fetch has failed, the
    /// fetch is started. A screen that waits to be filled is filled once
    /// the slot holds a successful response whose text was parsed. A
    /// response that the service refused, that has no text, or whose text
    /// could not be parsed is shown and changes nothing. A failure is
    /// shown, kept, and clears the slot.
    fn pump(
        &mut self,
        reload: bool,
        page: Option<Result<Vec<Ranking>, String>>,
        session: &Session,
    ) -> (frame: Frame)
        requires
            old(self).wf(),
        ensures
            final(self).wf(),
            *final(self) == old(self).reloaded(reload).started(*session).read(*session, page),
            shown(frame.notes@) == old(self).notes_with(reload, page, *session),
            sent(frame.fetches@) == old(self).fetches_with(reload, *session),
            frame.next is None,
    {
        let mut frame = Frame::quiet();
        if reload {
            self.download.promise = None;
            self.parsed = false;
            self.failure = None;
        }
        let request = match self.current_view.get_request(self.base_url.as_str(), session) {
            Some(request) => request,
            None => {
                self.parsed = true;
                proof {
                    assert(shown(frame.notes@) =~= old(self).notes_with(reload, page, *session));
                    assert(sent(frame.fetches@) =~= old(self).fetches_with(reload, *session));
                }
                return frame;
            },
        };
        if self.failure.is_none() {
            match self.download.download_if_needed(request) {
                Some(request) => {
                    frame.fetches.push(Fetch { slot: Slot::Page, request });
                },
                None => {},
            }
        }
        let ghost begun = *self;
        assert(begun == old(self).reloaded(reload).started(*session));
        if !self.parsed {
            let note = match self.download.promise.take() {
                None => match &self.failure {
                    Some(message) => Status::Label(message.clone()),
                    None => Status::Quiet,
                },
                Some(Promise::Ready(Err(message))) => {
                    let note = Status::Label(message.clone());
                    self.failure = Some(message);
                    note
                },
                held => {
                    self.download.promise = held;
                    let (rankings, note) = self.download.deserialize_when_got(page);
                    match rankings {
                        Some(rankings) => {
                            self.current_view.populate_from_json(Some(Ok(rankings)));
                            self.parsed = true;
                        },
                        None => {},
                    }
                    note
                },
            };
            frame.notes.push(note);
        }
        proof {
            assert(shown(frame.notes@) =~= old(self).notes_with(reload, page, *session));
            assert(sent(frame.fetches@) =~= old(self).fetches_with(reload, *session));
        }
        frame
    }

    /// Lets `next` take over as the screen.
    pub fn navigate(&mut self, next: Screen)
        requires
            next.wf(),
        ensures
            final(self).wf(),
            *final(self) == old(self).turned(next),
    {
        self.current_view = next;
        self.parsed = false;
        self.download.promise = None;
        self.failure = None;
        self.tickets.forget();
    }

    /// Whether `after` is the controller once `outcome` was reported for
    /// `slot` under `number`.
    ///
    /// An outcome under a number that the slot does not await belongs to a
    /// fetch that was dropped, and changes nothing. The outcome that is
    /// awaited goes to the controller's own slot, or to the slot of that
    /// name of the screen, and the slot awaits nothing any more.
    pub open spec fn resolved(
        self,
        slot: Slot,
        number: u64,
        outcome: Result<Response, String>,
        after: Data,
    ) -> bool {
        if self.tickets.awaited(slot) != Some(number) {
            after == self
        } else {
            &&& after.base_url == self.base_url
            &&& after.parsed == self.parsed
            &&& after.failure == self.failure
            &&& after.tickets == self.tickets.with(slot, None)
            &&& if slot == Slot::Page {
                &&& after.current_view == self.current_view
                &&& after.download.resolved_from(self.download, outcome)
            } else {
                &&& after.download == self.download
                &&& after.current_view.resolved(self.current_view, slot, outcome)
            }
        }
    }

    /// Records the outcome of the fetch that left for `slot` under
    /// `number`, if that is the fetch that the slot awaits.
    pub fn resolve(&mut self, slot: Slot, number: u64, outcome: Result<Response, String>)
        requires
            old(self).wf(),
        ensures
            final(self).wf(),
            old(self).resolved(slot, number, outcome, *final(self)),
    {
        if self.tickets.redeem(slot, number) {
            if slot == Slot::Page {
                self.download.resolve(outcome);
            } else {
                self.current_view.resolve(slot, outcome);
            }
        }
    }

    /// A fetch is never started while the slot is in use: as long as nobody
    /// asks for a reload, a controller whose slot waits for a fetch, or
    /// holds the result of one, starts nothing. While the slot waits, a
    /// frame changes nothing about the slot, and nothing at all where the
    /// screen is filled from a request: so it is with every frame that
    /// follows.
    pub proof fn one_fetch_at_a_time(self, input: DataInput, session: Session)
        requires
            self.download.promise is Some,
            !input.reload,
        ensures
            self.fetches(input, session).len() == 0,
            self.download.pending() ==> self.pumped(input, session).download == self.download,
            self.download.pending() && self.current_view.request_of(self.base_url@, session) is Some
                ==> self.pumped(input, session) == self,
            self.pumped(input, session).download.promise is Some || self.pumped(
                input,
                session,
            ).failure is Some,
    {
    }

    /// A failed fetch clears the slot and is not tried again by itself: the
    /// frame that reads the failure leaves the slot idle and keeps the
    /// message, every later frame without a reload starts nothing and
    /// leaves the controller as it is, and a frame with a reload fetches
    /// again.
    pub proof fn failure_waits_for_reload(self, input: DataInput, later: DataInput, session: Session)
        requires
            !input.reload,
            !self.parsed,
            self.current_view.request_of(self.base_url@, session) is Some,
            self.download.failure() is Some,
        ensures
            self.pumped(input, session).download.promise is None,
            self.pumped(input, session).failure == self.download.failure(),
            self.notes(input, session) == seq![StatusView::Label(self.download.failure()->0@)],
            !later.reload ==> {
                &&& self.pumped(input, session).fetches(later, session).len() == 0
                &&& self.pumped(input, session).pumped(later, session) == self.pumped(input, session)
            },
            later.reload ==> self.pumped(input, session).fetches(later, session).len() == 1,
    {
    }

    /// A response that the screen cannot be filled from is shown, and
    /// nothing else happens: the screen and the slot stay as they are, the
    /// screen still waits to be filled, and nothing is fetched. A response
    /// that the service refused is shown by its status text, and a text that
    /// could not be parsed by the message of the parser.
    pub proof fn unusable_page_is_shown(self, input: DataInput, session: Session)
        requires
            !input.reload,
            !self.parsed,
            self.current_view.request_of(self.base_url@, session) is Some,
            self.download.response() is Some,
            !self.fills(input.page),
        ensures
            self.pumped(input, session) == self,
            self.fetches(input, session).len() == 0,
            self.notes(input, session) == seq![note_of(self.download, input.page)],
            !self.download.response()->0.ok ==> self.notes(input, session) == seq![
                StatusView::Label(
                    "Server responded with "@ + self.download.response()->0.status_text@,
                ),
            ],
            self.download.readable() ==> (input.page matches Some(Err(error)) ==> self.notes(
                input,
                session,
            ) == seq![StatusView::Label("Failed to parse response due to: "@ + error@)]),
    {
    }

    /// A change of screen drops what the slot held: the new screen is
    /// fetched for in the next frame, whatever became of the fetch of the
    /// old one.
    pub proof fn navigation_starts_anew(self, next: Screen, input: DataInput, session: Session)
        requires
            next.request_of(self.base_url@, session) is Some,
        ensures
            self.turned(next).fetches(input, session).len() == 1,
            self.turned(next).pumped(input, session).download.pending(),
    {
    }
}

} // verus!
