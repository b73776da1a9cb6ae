//! What every screen shares: the slots it fetches through, what a frame of
//! it asks for, and where it leads.

use vstd::prelude::*;
use crate::download::Status;
use crate::download::StatusView;
use crate::http::Request;
use crate::http::RequestView;
use crate::download::Download;
use crate::download::schema_post;
use crate::http::Response;
use crate::ranking_list::rankings_request;
use crate::login::Session;
use crate::rank::RankInput;
use crate::rank::RankView;
use crate::delete::DeleteInput;
use crate::edit::EditInput;
use crate::submit::FormInput;
use crate::ranking_list::ListChoice;
use crate::delete::DeleteRanking;
use crate::edit::EditRanking;
use crate::forms::NewAlternative;
use crate::forms::NewExpert;
use crate::forms::NewRanking;
use crate::forms::NewThing;
use crate::ranking_list::RankingList;
use crate::schema::Criterion;
use crate::schema::Ranking;
use crate::schema::Scale;
use crate::section::Section;

verus! {

/// The logical operations of a screen. Each has one download slot, and so at
/// most one fetch in flight.
#[derive(Debug, Clone, Copy, PartialEq, Eq, Hash, Structural)]
pub enum Slot {
    /// The data that the screen as a whole is filled from.
    Page,
    /// What the screen submits: a vote, a weight, a new record, a deletion.
    Action,
    /// The basic parameters of the ranking.
    Info,
    Variables,
    Alternatives,
    Experts,
    Criteria,
    Scale,
}

/// A fetch to start: the request, and the slot that waits for its result.
#[derive(Debug, PartialEq, Eq)]
pub struct Fetch {
    pub slot: Slot,
    pub request: Request,
}

impl View for Fetch {
    type V = (Slot, RequestView);

    open spec fn view(&self) -> (Slot, RequestView) {
        (self.slot, self.request@)
    }
}

/// The fetches of a frame as mathematics.
pub open spec fn sent(fetches: Seq<Fetch>) -> Seq<(Slot, RequestView)> {
    fetches.map_values(|fetch: Fetch| fetch@)
}

/// The notes of a frame as mathematics.
pub open spec fn shown(notes: Seq<Status>) -> Seq<StatusView> {
    notes.map_values(|note: Status| note@)
}

/// The fetch that a frame starts on the slot `name`, if one goes out.
pub open spec fn starting(name: Slot, request: Option<RequestView>) -> Seq<(Slot, RequestView)> {
    match request {
        Some(request) => seq![(name, request)],
        None => Seq::empty(),
    }
}

/// The fetch that hands in a record on the slot `name`, where there is a
/// record, it could be serialized, and `slot`, which is that slot as it was,
/// does not wait for a fetch.
pub open spec fn posting(
    name: Slot,
    slot: Download,
    submit: Option<Result<Vec<u8>, String>>,
    url: Seq<char>,
    session: Session,
) -> Seq<(Slot, RequestView)> {
    match submit {
        Some(Ok(body)) if !slot.pending() => seq![(name, schema_post(url, body@, session))],
        _ => Seq::empty(),
    }
}

/// Puts the fetch that was started on the slot `name`, if one was, after
/// the fetches that are there.
pub(crate) fn queue(fetches: &mut Vec<Fetch>, name: Slot, started: Option<Request>)
    ensures
        sent(final(fetches)@) == sent(old(fetches)@) + starting(
            name,
            match started {
                Some(request) => Some(request@),
                None => None,
            },
        ),
{
    match started {
        Some(request) => {
            fetches.push(Fetch { slot: name, request });
        },
        None => {},
    }
    proof {
        assert(sent(fetches@) =~= sent(old(fetches)@) + starting(
            name,
            match started {
                Some(request) => Some(request@),
                None => None,
            },
        ));
    }
}

/// A screen of the client.
pub enum Screen {
    RankingList(RankingList),
    Rank(RankView),
    NewRanking(NewRanking),
    NewExpert(NewExpert),
    NewAlternative(NewAlternative),
    NewCriterion(NewThing<Criterion>),
    NewScale(NewThing<Scale>),
    EditRanking(EditRanking),
    DeleteRanking(DeleteRanking),
}

/// What happened on the screen since its last frame.
pub enum ScreenInput {
    /// The button of the list of rankings that was pressed, if one was.
    List(Option<ListChoice>),
    Rank(RankInput),
    /// What happened on the form for a new ranking, expert, alternative,
    /// criterion or level.
    Form(FormInput),
    Edit(EditInput),
    Delete(DeleteInput),
}

impl Screen {
    /// Whether `after` and `frame` are what one frame on `input` makes of
    /// the screen and asks of its surroundings: the frame of the screen
    /// that it is. Input that is meant for another kind of screen is not
    /// looked at: nothing happens.
    pub open spec fn framed(
        self,
        input: ScreenInput,
        base_url: Seq<char>,
        session: Session,
        after: Screen,
        frame: Frame,
    ) -> bool {
        match (self, input) {
            (Screen::RankingList(list), ScreenInput::List(choice)) => {
                &&& after == self
                &&& list.shows(choice, base_url, session, frame)
            },
            (Screen::Rank(view), ScreenInput::Rank(input)) => {
                &&& after matches Screen::Rank(after)
                &&& view.shows(input, base_url, session, after, frame)
            },
            (Screen::NewRanking(form), ScreenInput::Form(input)) => {
                &&& after matches Screen::NewRanking(after)
                &&& form.shows(input, base_url, session, after, frame)
            },
            (Screen::NewExpert(form), ScreenInput::Form(input)) => {
                &&& after matches Screen::NewExpert(after)
                &&& form.shows(input, base_url, session, after, frame)
            },
            (Screen::NewAlternative(form), ScreenInput::Form(input)) => {
                &&& after matches Screen::NewAlternative(after)
                &&& form.shows(input, base_url, session, after, frame)
            },
            (Screen::NewCriterion(form), ScreenInput::Form(input)) => {
                &&& after matches Screen::NewCriterion(after)
                &&& form.shows(input, base_url, session, after, frame)
            },
            (Screen::NewScale(form), ScreenInput::Form(input)) => {
                &&& after matches Screen::NewScale(after)
                &&& form.shows(input, base_url, session, after, frame)
            },
            (Screen::EditRanking(view), ScreenInput::Edit(input)) => {
                &&& after matches Screen::EditRanking(after)
                &&& view.shows(input, base_url, session, after, frame)
            },
            (Screen::DeleteRanking(question), ScreenInput::Delete(input)) => {
                &&& after matches Screen::DeleteRanking(after)
                &&& question.shows(input, base_url, session, after, frame)
            },
            _ => {
                &&& after == self
                &&& frame.notes@.len() == 0
                &&& frame.fetches@.len() == 0
                &&& frame.next is None
            },
        }
    }

    /// One frame of the screen.
    pub fn show(&mut self, input: ScreenInput, base_url: &str, session: &Session) -> (frame: Frame)
        requires
            old(self).wf(),
        ensures
            final(self).wf(),
            old(self).framed(input, base_url@, *session, *final(self), frame),
            frame.next matches Some(navigation) ==> navigation.screen.wf(),
    {
        match (self, input) {
            (Screen::RankingList(list), ScreenInput::List(choice)) => list.show(
                choice,
                base_url,
                session,
            ),
            (Screen::Rank(view), ScreenInput::Rank(input)) => view.show(input, base_url, session),
            (Screen::NewRanking(form), ScreenInput::Form(input)) => form.show(
                input,
                base_url,
                session,
            ),
            (Screen::NewExpert(form), ScreenInput::Form(input)) => form.show(input, base_url, session),
            (Screen::NewAlternative(form), ScreenInput::Form(input)) => form.show(
                input,
                base_url,
                session,
            ),
            (Screen::NewCriterion(form), ScreenInput::Form(input)) => form.show(
                input,
                base_url,
                session,
            ),
            (Screen::NewScale(form), ScreenInput::Form(input)) => form.show(input, base_url, session),
            (Screen::EditRanking(view), ScreenInput::Edit(input)) => view.show(
                input,
                base_url,
                session,
            ),
            (Screen::DeleteRanking(question), ScreenInput::Delete(input)) => question.show(
                input,
                base_url,
                session,
            ),
            _ => Frame::quiet(),
        }
    }

    /// The invariant of the screen.
    pub open spec fn wf(self) -> bool {
        self matches Screen::Rank(view) ==> view.wf()
    }

    /// The request that the screen as a whole is filled from, if it is
    /// filled from one: the list of rankings is, no other screen is.
    pub open spec fn request_of(self, base_url: Seq<char>, session: Session) -> Option<RequestView> {
        match self {
            Screen::RankingList(_) => Some(rankings_request(base_url, session)),
            _ => None,
        }
    }

    /// The screen once it has been filled from the rankings that a response
    /// was parsed to. Only the list of rankings takes them.
    pub open spec fn populated(self, parsed: Option<Result<Vec<Ranking>, String>>) -> Screen {
        match (self, parsed) {
            (Screen::RankingList(_), Some(Ok(rankings))) => Screen::RankingList(
                RankingList { ranking_list: rankings },
            ),
            _ => self,
        }
    }

    /// The screen with the slot of its actions in place of the one it had.
    pub open spec fn with_action(self, slot: crate::download::Download) -> Screen {
        match self {
            Screen::RankingList(_) => self,
            Screen::Rank(view) => Screen::Rank(RankView { download: slot, ..view }),
            Screen::NewRanking(form) => Screen::NewRanking(NewRanking { download: slot, ..form }),
            Screen::NewExpert(form) => Screen::NewExpert(NewExpert { download: slot, ..form }),
            Screen::NewAlternative(form) => Screen::NewAlternative(
                NewAlternative { download: slot, ..form },
            ),
            Screen::NewCriterion(form) => Screen::NewCriterion(NewThing { download: slot, ..form }),
            Screen::NewScale(form) => Screen::NewScale(NewThing { download: slot, ..form }),
            Screen::EditRanking(view) => Screen::EditRanking(EditRanking { download: slot, ..view }),
            Screen::DeleteRanking(question) => Screen::DeleteRanking(
                DeleteRanking { download: slot, ..question },
            ),
        }
    }

    /// The slot of the actions of the screen, if it has one.
    pub open spec fn action(self) -> Option<crate::download::Download> {
        match self {
            Screen::RankingList(_) => None,
            Screen::Rank(view) => Some(view.download),
            Screen::NewRanking(form) => Some(form.download),
            Screen::NewExpert(form) => Some(form.download),
            Screen::NewAlternative(form) => Some(form.download),
            Screen::NewCriterion(form) => Some(form.download),
            Screen::NewScale(form) => Some(form.download),
            Screen::EditRanking(view) => Some(view.download),
            Screen::DeleteRanking(question) => Some(question.download),
        }
    }

    /// The request that the screen as a whole is filled from.
    pub fn get_request(&self, base_url: &str, session: &Session) -> (request: Option<Request>)
        ensures
            match self.request_of(base_url@, *session) {
                Some(view) => request matches Some(request) && request@ == view,
                None => request is None,
            },
    {
        match self {
            Screen::RankingList(list) => list.get_request(base_url, session),
            _ => None,
        }
    }

    /// Fills the screen from the rankings that a response was parsed to.
    pub fn populate_from_json(&mut self, parsed: Option<Result<Vec<Ranking>, String>>)
        ensures
            *final(self) == old(self).populated(parsed),
    {
        match self {
            Screen::RankingList(list) => {
                match parsed {
                    Some(parsed) => {
                        list.populate_from_json(parsed);
                    },
                    None => {},
                }
            },
            _ => {},
        }
    }

    /// Whether the screen is `before` once `outcome` was reported to
    /// `slot`: the slot of that name, if the screen has one, has taken the
    /// outcome, and nothing else has changed.
    pub open spec fn resolved(self, before: Screen, slot: Slot, outcome: Result<Response, String>)
        -> bool {
        match before {
            Screen::RankingList(_) => self == before,
            Screen::Rank(view) => self matches Screen::Rank(after) && after.resolved(
                view,
                slot,
                outcome,
            ),
            Screen::EditRanking(view) => self matches Screen::EditRanking(after) && after.resolved(
                view,
                slot,
                outcome,
            ),
            _ => if slot == Slot::Action {
                &&& self.action() matches Some(after)
                &&& after.resolved_from(before.action()->0, outcome)
                &&& self == before.with_action(after)
            } else {
                self == before
            },
        }
    }

    /// Records the outcome of the fetch that `slot` of the screen waits
    /// for. A slot that the screen does not have takes nothing.
    pub fn resolve(&mut self, slot: Slot, outcome: Result<Response, String>)
        requires
            old(self).wf(),
        ensures
            final(self).wf(),
            final(self).resolved(*old(self), slot, outcome),
    {
        match self {
            Screen::RankingList(_) => {},
            Screen::Rank(view) => view.resolve(slot, outcome),
            Screen::EditRanking(view) => view.resolve(slot, outcome),
            Screen::NewRanking(form) => {
                if slot == Slot::Action {
                    form.download.resolve(outcome);
                }
            },
            Screen::NewExpert(form) => {
                if slot == Slot::Action {
                    form.download.resolve(outcome);
                }
            },
            Screen::NewAlternative(form) => {
                if slot == Slot::Action {
                    form.download.resolve(outcome);
                }
            },
            Screen::NewCriterion(form) => {
                if slot == Slot::Action {
                    form.download.resolve(outcome);
                }
            },
            Screen::NewScale(form) => {
                if slot == Slot::Action {
                    form.download.resolve(outcome);
                }
            },
            Screen::DeleteRanking(question) => {
                if slot == Slot::Action {
                    question.download.resolve(outcome);
                }
            },
        }
    }
}

/// A change of screen: the screen to show from the next frame on, and the
/// fetches that it starts with.
pub struct Navigation {
    pub screen: Screen,
    pub fetches: Vec<Fetch>,
}

impl Navigation {
    /// Whether this leads to an empty list of rankings, which is then
    /// filled by the controller.
    pub open spec fn to_list(self) -> bool {
        &&& self.fetches@.len() == 0
        &&& self.screen matches Screen::RankingList(list)
        &&& list.ranking_list@.len() == 0
    }

    /// Whether this leads to the editing of `ranking`, with its five lists
    /// on their way.
    pub open spec fn to_edit(self, ranking: Ranking, base_url: Seq<char>, session: Session) -> bool {
        &&& self.screen matches Screen::EditRanking(view)
        &&& view.fresh(ranking)
        &&& sent(self.fetches@) == EditRanking::first_fetches(
            ranking.ranking_id as int,
            base_url,
            session,
        )
    }

    /// Whether this leads to the voting flow of `ranking`, with its three
    /// lists on their way.
    pub open spec fn to_rank(self, ranking: Ranking, base_url: Seq<char>, session: Session) -> bool {
        &&& self.screen matches Screen::Rank(view)
        &&& view.wf()
        &&& view.fresh(ranking)
        &&& sent(self.fetches@) == RankView::first_fetches(
            ranking.ranking_id as int,
            base_url,
            session,
        )
    }

    /// Whether this leads to the form for a new item of `section` of
    /// `ranking`.
    pub open spec fn to_new(self, section: Section, ranking: Ranking) -> bool {
        &&& self.fetches@.len() == 0
        &&& match section {
            Section::Alternatives => self.screen matches Screen::NewAlternative(form)
                && form.fresh(ranking),
            Section::Experts => self.screen matches Screen::NewExpert(form) && form.fresh(ranking),
            Section::Criteria => self.screen matches Screen::NewCriterion(form) && form.fresh(
                section,
                ranking,
            ),
            Section::Scale => self.screen matches Screen::NewScale(form) && form.fresh(
                section,
                ranking,
            ),
        }
    }

    /// Whether this leads to the form for a new ranking.
    pub open spec fn to_new_ranking(self) -> bool {
        &&& self.fetches@.len() == 0
        &&& self.screen matches Screen::NewRanking(form)
        &&& form.fresh()
    }

    /// Whether this leads to the question whether to delete `ranking`.
    pub open spec fn to_delete(self, ranking: Ranking) -> bool {
        &&& self.fetches@.len() == 0
        &&& self.screen matches Screen::DeleteRanking(question)
        &&& question.fresh(ranking)
    }
}

/// What one frame of a screen asks of its surroundings.
pub struct Frame {
    /// Spinners and messages to show, in this order.
    pub notes: Vec<Status>,
    /// Fetches to start. Their slots are pending already.
    pub fetches: Vec<Fetch>,
    /// The screen that takes over, if this one is left.
    pub next: Option<Navigation>,
}

impl Frame {
    /// A frame that shows nothing, starts nothing and stays.
    pub fn quiet() -> (frame: Frame)
        ensures
            frame.notes@.len() == 0,
            frame.fetches@.len() == 0,
            frame.next is None,
    {
        Frame { notes: Vec::new(), fetches: Vec::new(), next: None }
    }
}

} // verus!
