//! The forms for what is new: a ranking, an expert, an alternative, a
//! criterion, a level of the scale.

use vstd::prelude::*;
use crate::download::Download;
use crate::download::Promise;
use crate::download::Status;
use crate::download::StatusView;
use crate::edit::open_edit;
use crate::login::Session;
use crate::ranking_list::open_list;
use crate::schema::Alternative;
use crate::schema::Expert;
use crate::schema::Ranking;
use crate::section::Section;
use crate::submit::FormInput;
use crate::submit::hand_in;
use crate::submit::kept;
use crate::submit::read_verdict;
use crate::submit::submitted;
use crate::submit::verdict;
use crate::text::join;
use crate::view::Frame;
use crate::view::Slot;
use crate::view::posting;
use crate::view::sent;
use crate::view::shown;

verus! {

/// Whether `frame` is what a form for a new item of `section` of `ranking`
/// asks for, and `error` and `slot` what its message and its slot have
/// become, after one frame on `input`.
///
/// "Back" leads to the editing of the ranking and nothing else happens.
/// Otherwise the message is shown, a submitted record is posted, and what
/// the slot then holds is read: once the service accepted a record, the
/// form leads to the editing of the ranking.
pub open spec fn form_shown(
    ranking: Ranking,
    section: Section,
    before: (String, Download),
    input: FormInput,
    base_url: Seq<char>,
    session: Session,
    after: (String, Download),
    frame: Frame,
) -> bool {
    if input.back {
        &&& after == before
        &&& frame.notes@.len() == 0
        &&& frame.fetches@.len() == 0
        &&& frame.next matches Some(navigation)
        &&& navigation.to_edit(ranking, base_url, session)
    } else {
        &&& after.0 == kept(before.0, input.submit)
        &&& after.1 == submitted(before.1, input.submit)
        &&& shown(frame.notes@) == seq![
            StatusView::Label(before.0@),
            verdict(after.1, StatusView::Quiet, "Unknown error"@),
        ]
        &&& sent(frame.fetches@) == posting(
            Slot::Action,
            before.1,
            input.submit,
            section.create_address(base_url, ranking.ranking_id as int),
            session,
        )
        &&& if after.1.succeeded() {
            frame.next matches Some(navigation) && navigation.to_edit(ranking, base_url, session)
        } else {
            frame.next is None
        }
    }
}

/// One frame of a form for a new item of `section` of `ranking`.
pub(crate) fn show_form(
    ranking: &Ranking,
    section: Section,
    error: &mut String,
    slot: &mut Download,
    input: FormInput,
    base_url: &str,
    session: &Session,
) -> (frame: Frame)
    ensures
        form_shown(
            *ranking,
            section,
            (*old(error), *old(slot)),
            input,
            base_url@,
            *session,
            (*final(error), *final(slot)),
            frame,
        ),
{
    let mut frame = Frame::quiet();
    if input.back {
        frame.next = Some(open_edit(ranking, session, base_url));
        return frame;
    }
    frame.notes.push(Status::Label(error.clone()));
    let url = section.create_url(base_url, ranking.ranking_id);
    hand_in(slot, error, Slot::Action, input.submit, url, session, &mut frame);
    let (accepted, note) = read_verdict(slot, None, "Unknown error");
    frame.notes.push(note);
    if accepted {
        frame.next = Some(open_edit(ranking, session, base_url));
    }
    proof {
        assert(shown(frame.notes@) =~= seq![
            StatusView::Label(old(error)@),
            verdict(*slot, StatusView::Quiet, "Unknown error"@),
        ]);
        assert(sent(frame.fetches@) =~= posting(
            Slot::Action,
            *old(slot),
            input.submit,
            section.create_address(base_url@, ranking.ranking_id as int),
            *session,
        ));
    }
    frame
}

/// The form for a new expert of a ranking.
pub struct NewExpert {
    pub expert: Expert,
    pub ranking: Ranking,
    pub error: String,
    pub download: Download,
}

impl NewExpert {
    /// Whether the form is untouched: it offers the default expert for
    /// `ranking`.
    pub open spec fn fresh(self, ranking: Ranking) -> bool {
        &&& self.ranking.same_record(ranking)
        &&& self.ranking.download.promise is None
        &&& self.untouched()
    }

    /// Whether the form offers the default expert and nothing was submitted.
    pub open spec fn untouched(self) -> bool {
        &&& self.expert.expert_id == 0
        &&& self.expert.name@ == "Bill Nye"@
        &&& self.expert.email@ == "example@example.com"@
        &&& !self.expert.admin
        &&& self.error@.len() == 0
        &&& self.download.promise is None
    }

    /// A form that offers the default expert for `ranking`.
    pub fn new(ranking: Ranking) -> (form: Self)
        ensures
            form.ranking == ranking,
            form.untouched(),
    {
        NewExpert {
            expert: Expert::default(),
            ranking,
            error: String::new(),
            download: Download::default(),
        }
    }

    /// Whether `after` and `frame` are what one frame on `input` makes of
    /// the form and asks of its surroundings.
    pub open spec fn shows(
        self,
        input: FormInput,
        base_url: Seq<char>,
        session: Session,
        after: NewExpert,
        frame: Frame,
    ) -> bool {
        &&& after.expert == self.expert
        &&& after.ranking == self.ranking
        &&& form_shown(
            self.ranking,
            Section::Experts,
            (self.error, self.download),
            input,
            base_url,
            session,
            (after.error, after.download),
            frame,
        )
    }

    /// One frame of the form.
    pub fn show(&mut self, input: FormInput, base_url: &str, session: &Session) -> (frame: Frame)
        ensures
            old(self).shows(input, base_url@, *session, *final(self), frame),
    {
        show_form(
            &self.ranking,
            Section::Experts,
            &mut self.error,
            &mut self.download,
            input,
            base_url,
            session,
        )
    }
}

/// The form for a new item of one of the lists of a ranking.
pub struct NewThing<T> {
    pub thing: T,
    pub ranking: Ranking,
    pub error: String,
    pub download: Download,
    /// The list that the item is for.
    pub section: Section,
}

impl<T> NewThing<T> {
    /// Whether the form is untouched: it is one for `section` of `ranking`.
    pub open spec fn fresh(self, section: Section, ranking: Ranking) -> bool {
        &&& self.ranking.same_record(ranking)
        &&& self.ranking.download.promise is None
        &&& self.untouched(section)
    }

    /// Whether the form is one for `section` on which nothing was submitted.
    pub open spec fn untouched(self, section: Section) -> bool {
        &&& self.section == section
        &&& self.error@.len() == 0
        &&& self.download.promise is None
    }

    /// A form that offers `thing` for `section` of `ranking`.
    pub fn new(thing: T, ranking: Ranking, section: Section) -> (form: Self)
        ensures
            form.thing == thing,
            form.ranking == ranking,
            form.untouched(section),
    {
        NewThing { thing, ranking, error: String::new(), download: Download::default(), section }
    }

    /// Whether `after` and `frame` are what one frame on `input` makes of
    /// the form and asks of its surroundings.
    pub open spec fn shows(
        self,
        input: FormInput,
        base_url: Seq<char>,
        session: Session,
        after: NewThing<T>,
        frame: Frame,
    ) -> bool {
        &&& after.thing == self.thing
        &&& after.ranking == self.ranking
        &&& after.section == self.section
        &&& form_shown(
            self.ranking,
            self.section,
            (self.error, self.download),
            input,
            base_url,
            session,
            (after.error, after.download),
            frame,
        )
    }

    /// One frame of the form.
    pub fn show(&mut self, input: FormInput, base_url: &str, session: &Session) -> (frame: Frame)
        ensures
            old(self).shows(input, base_url@, *session, *final(self), frame),
    {
        show_form(
            &self.ranking,
            self.section,
            &mut self.error,
            &mut self.download,
            input,
            base_url,
            session,
        )
    }
}

/// The form for a new alternative of a ranking.
pub struct NewAlternative {
    pub alternative: Alternative,
    pub ranking: Ranking,
    pub error: String,
    pub download: Download,
}

impl NewAlternative {
    /// Whether the form is untouched: it offers the default alternative for
    /// `ranking`.
    pub open spec fn fresh(self, ranking: Ranking) -> bool {
        &&& self.ranking.same_record(ranking)
        &&& self.ranking.download.promise is None
        &&& self.untouched()
    }

    /// Whether the form offers the default alternative and nothing was
    /// submitted.
    pub open spec fn untouched(self) -> bool {
        &&& self.alternative.alternative_id == 0
        &&& self.alternative.name@ == "Batman"@
        &&& self.alternative.description@ == "Do people still read comic books?"@
        &&& self.error@.len() == 0
        &&& self.download.promise is None
    }

    /// A form that offers the default alternative for `ranking`.
    pub fn new(ranking: Ranking) -> (form: Self)
        ensures
            form.ranking == ranking,
            form.untouched(),
    {
        NewAlternative {
            alternative: Alternative::default(),
            ranking,
            error: String::new(),
            download: Download::default(),
        }
    }

    /// Whether `after` and `frame` are what one frame on `input` makes of
    /// the form and asks of its surroundings.
    pub open spec fn shows(
        self,
        input: FormInput,
        base_url: Seq<char>,
        session: Session,
        after: NewAlternative,
        frame: Frame,
    ) -> bool {
        &&& after.alternative == self.alternative
        &&& after.ranking == self.ranking
        &&& form_shown(
            self.ranking,
            Section::Alternatives,
            (self.error, self.download),
            input,
            base_url,
            session,
            (after.error, after.download),
            frame,
        )
    }

    /// One frame of the form.
    pub fn show(&mut self, input: FormInput, base_url: &str, session: &Session) -> (frame: Frame)
        ensures
            old(self).shows(input, base_url@, *session, *final(self), frame),
    {
        show_form(
            &self.ranking,
            Section::Alternatives,
            &mut self.error,
            &mut self.download,
            input,
            base_url,
            session,
        )
    }
}

/// The form for a new ranking.
pub struct NewRanking {
    pub ranking: Ranking,
    pub download: Download,
    pub error: String,
}

impl Default for NewRanking {
    fn default() -> (form: Self)
        ensures
            form.fresh(),
    {
        NewRanking { ranking: Ranking::default(), download: Download::default(), error: String::new() }
    }
}

impl NewRanking {
    /// Whether the form is untouched: it offers the default ranking.
    pub open spec fn fresh(self) -> bool {
        &&& self.ranking.description@ == "Superheroes ranking"@
        &&& self.ranking.ranking_id == 0
        &&& self.ranking.expiring == 0
        &&& self.ranking.download.promise is None
        &&& self.download.promise is None
        &&& self.error@.len() == 0
    }

    /// The form once a record was handed in, if one was, and what the slot
    /// then holds was read: a failed fetch leaves its message and an idle
    /// slot.
    pub open spec fn settled(self, submit: Option<Result<Vec<u8>, String>>) -> NewRanking {
        let slot = submitted(self.download, submit);
        match slot.failure() {
            Some(message) => NewRanking {
                error: message,
                download: Download { promise: None, path: slot.path },
                ..self
            },
            None => NewRanking { error: kept(self.error, submit), download: slot, ..self },
        }
    }

    /// Whether `after` and `frame` are what one frame on `input` makes of
    /// the form and asks of its surroundings.
    ///
    /// "Back" leads to the list of rankings and nothing else happens.
    /// Otherwise the message is shown, a submitted ranking is posted, and
    /// what the slot then holds is read: once the service accepted, the form
    /// leads back to the list of rankings, which is then fetched anew and
    /// holds the new ranking under the identifier that the service gave it.
    pub open spec fn shows(
        self,
        input: FormInput,
        base_url: Seq<char>,
        session: Session,
        after: NewRanking,
        frame: Frame,
    ) -> bool {
        if input.back {
            &&& after == self
            &&& frame.notes@.len() == 0
            &&& frame.fetches@.len() == 0
            &&& frame.next matches Some(navigation)
            &&& navigation.to_list()
        } else {
            let slot = submitted(self.download, input.submit);
            &&& after == self.settled(input.submit)
            &&& shown(frame.notes@) == seq![
                StatusView::Label(self.error@),
                verdict(slot, StatusView::Label("Success"@), "Unknown error"@),
            ]
            &&& sent(frame.fetches@) == posting(
                Slot::Action,
                self.download,
                input.submit,
                base_url + "/create_ranking"@,
                session,
            )
            &&& if slot.succeeded() {
                frame.next matches Some(navigation) && navigation.to_list()
            } else {
                frame.next is None
            }
        }
    }

    /// One frame of the form.
    pub fn show(&mut self, input: FormInput, base_url: &str, session: &Session) -> (frame: Frame)
        ensures
            old(self).shows(input, base_url@, *session, *final(self), frame),
    {
        let mut frame = Frame::quiet();
        if input.back {
            frame.next = Some(open_list());
            return frame;
        }
        frame.notes.push(Status::Label(self.error.clone()));
        let url = join(base_url, "/create_ranking");
        hand_in(
            &mut self.download,
            &mut self.error,
            Slot::Action,
            input.submit,
            url,
            session,
            &mut frame,
        );
        let (accepted, note) = read_verdict(&self.download, Some("Success"), "Unknown error");
        frame.notes.push(note);
        if accepted {
            frame.next = Some(open_list());
        }
        match self.download.promise.take() {
            Some(Promise::Ready(Err(message))) => {
                self.error = message;
            },
            other => {
                self.download.promise = other;
            },
        }
        proof {
            let slot = submitted(old(self).download, input.submit);
            assert(shown(frame.notes@) =~= seq![
                StatusView::Label(old(self).error@),
                verdict(slot, StatusView::Label("Success"@), "Unknown error"@),
            ]);
            assert(sent(frame.fetches@) =~= posting(
                Slot::Action,
                old(self).download,
                input.submit,
                base_url@ + "/create_ranking"@,
                *session,
            ));
        }
        frame
    }
}

} // verus!
