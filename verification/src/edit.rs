//! The screen that edits a ranking: its basic parameters, its variables and
//! its four lists, each with a slot of its own.

use vstd::prelude::*;
use crate::download::Download;
use crate::download::Promise;
use crate::download::Status;
use crate::download::StatusView;
use crate::download::schema_get;
use crate::forms::NewAlternative;
use crate::forms::NewExpert;
use crate::forms::NewThing;
use crate::http::RequestView;
use crate::http::Response;
use crate::http::get;
use crate::login::Session;
use crate::ranking_list::open_list;
use crate::schema::Alternative;
use crate::schema::Criterion;
use crate::schema::Expert;
use crate::schema::Ranking;
use crate::schema::Scale;
use crate::schema::Variables;
use crate::schema::VariablesInput;
use crate::schema::no_variables;
use crate::section::Section;
use crate::section_list::SectionInput;
use crate::section_list::section_after;
use crate::section_list::section_fetches;
use crate::section_list::section_note;
use crate::section_list::show_section_list;
use crate::submit::hand_in;
use crate::submit::read_verdict;
use crate::submit::submitted;
use crate::submit::verdict;
use crate::text::address;
use crate::text::decimal;
use crate::text::endpoint;
use crate::text::join;
use crate::text::push_decimal;
use crate::view::Fetch;
use crate::view::Frame;
use crate::view::Navigation;
use crate::view::Screen;
use crate::view::Slot;
use crate::view::posting;
use crate::view::queue;
use crate::view::sent;
use crate::view::shown;

verus! {

/// The screen that edits a ranking and its lists.
pub struct EditRanking {
    pub ranking: Ranking,
    pub experts_list: Option<Vec<Expert>>,
    pub alternatives_list: Option<Vec<Alternative>>,
    pub variables: Option<Variables>,
    pub criteria: Option<Vec<Criterion>>,
    pub scale: Option<Vec<Scale>>,
    pub error: String,
    pub download: Download,
    pub download_variables: Download,
    pub download_alternatives: Download,
    pub download_experts: Download,
    pub download_criteria: Download,
    pub download_scale: Download,
}

/// The address at which the variables of a ranking are read.
pub open spec fn variables_address(base_url: Seq<char>, ranking_id: int) -> Seq<char> {
    address(base_url, "/variables/"@, ranking_id)
}

impl EditRanking {
    /// Whether the screen is one of `ranking` in which nothing has happened
    /// but the start of the fetches of the variables and the four lists.
    pub open spec fn fresh(self, ranking: Ranking) -> bool {
        &&& self.ranking.same_record(ranking)
        &&& self.ranking.download.promise is None
        &&& self.experts_list is None
        &&& self.alternatives_list is None
        &&& self.variables is None
        &&& self.criteria is None
        &&& self.scale is None
        &&& self.error@.len() == 0
        &&& self.download.promise is None
        &&& self.download_variables.pending()
        &&& self.download_alternatives.pending()
        &&& self.download_experts.pending()
        &&& self.download_criteria.pending()
        &&& self.download_scale.pending()
    }

    /// The fetches that the screen starts with: the variables, the
    /// alternatives, the experts, the criteria and the scale of its
    /// ranking.
    pub open spec fn first_fetches(ranking_id: int, base_url: Seq<char>, session: Session) -> Seq<
        (Slot, RequestView),
    > {
        seq![
            (Slot::Variables, schema_get(variables_address(base_url, ranking_id), session)),
            (
                Slot::Alternatives,
                schema_get(Section::Alternatives.list_address(base_url, ranking_id), session),
            ),
            (Slot::Experts, schema_get(Section::Experts.list_address(base_url, ranking_id), session)),
            (Slot::Criteria, schema_get(Section::Criteria.list_address(base_url, ranking_id), session)),
            (Slot::Scale, schema_get(Section::Scale.list_address(base_url, ranking_id), session)),
        ]
    }

    /// A screen for `ranking` that has started to fetch the variables and
    /// the four lists.
    pub fn new(ranking: &Ranking, session: &Session, base_url: &str) -> (started: (
        EditRanking,
        Vec<Fetch>,
    ))
        ensures
            started.0.fresh(*ranking),
            sent(started.1@) == Self::first_fetches(ranking.ranking_id as int, base_url@, *session),
    {
        let mut edit = EditRanking {
            ranking: ranking.clone(),
            experts_list: None,
            alternatives_list: None,
            variables: None,
            criteria: None,
            scale: None,
            error: String::new(),
            download: Download::default(),
            download_variables: Download::default(),
            download_alternatives: Download::default(),
            download_experts: Download::default(),
            download_criteria: Download::default(),
            download_scale: Download::default(),
        };
        let id = ranking.ranking_id;
        let mut fetches: Vec<Fetch> = Vec::new();
        let started = edit.download_variables.get_schema(
            endpoint(base_url, "/variables/", id),
            session,
        );
        queue(&mut fetches, Slot::Variables, started);
        let started = edit.download_alternatives.get_schema(
            Section::Alternatives.list_url(base_url, id),
            session,
        );
        queue(&mut fetches, Slot::Alternatives, started);
        let started = edit.download_experts.get_schema(
            Section::Experts.list_url(base_url, id),
            session,
        );
        queue(&mut fetches, Slot::Experts, started);
        let started = edit.download_criteria.get_schema(
            Section::Criteria.list_url(base_url, id),
            session,
        );
        queue(&mut fetches, Slot::Criteria, started);
        let started = edit.download_scale.get_schema(Section::Scale.list_url(base_url, id), session);
        queue(&mut fetches, Slot::Scale, started);
        proof {
            assert(sent(fetches@) =~= Self::first_fetches(
                ranking.ranking_id as int,
                base_url@,
                *session,
            ));
        }
        (edit, fetches)
    }
}

/// The message for a response whose body is no text.
pub open spec fn reason(slot: Download) -> Seq<char> {
    match slot.response() {
        Some(response) => response.status_text@,
        None => Seq::empty(),
    }
}

/// The address at which the basic parameters of a ranking are updated.
pub open spec fn update_address(base_url: Seq<char>, ranking_id: int) -> Seq<char> {
    address(base_url, "/update_ranking_info/"@, ranking_id)
}

impl Ranking {
    /// One frame of the form of the basic parameters.
    ///
    /// A submitted update is posted; one that could not be serialized is
    /// dropped. What the slot then holds is read and noted on `frame`: once
    /// the service accepted, the form leads to the list of rankings.
    pub fn show_editable(
        &mut self,
        update: Option<Result<Vec<u8>, String>>,
        base_url: &str,
        session: &Session,
        frame: &mut Frame,
    ) -> (leave: Option<Navigation>)
        ensures
            final(self).same_record(*old(self)),
            final(self).download == submitted(old(self).download, update),
            shown(final(frame).notes@) == shown(old(frame).notes@).push(
                verdict(
                    final(self).download,
                    StatusView::Label("Success"@),
                    reason(final(self).download),
                ),
            ),
            sent(final(frame).fetches@) == sent(old(frame).fetches@) + posting(
                Slot::Info,
                old(self).download,
                update,
                update_address(base_url@, old(self).ranking_id as int),
                *session,
            ),
            final(frame).next == old(frame).next,
            if final(self).download.succeeded() {
                leave matches Some(navigation) && navigation.to_list()
            } else {
                leave is None
            },
    {
        let url = endpoint(base_url, "/update_ranking_info/", self.ranking_id);
        let mut dropped = String::new();
        hand_in(&mut self.download, &mut dropped, Slot::Info, update, url, session, frame);
        let fallback = match self.download.run_when_downloaded().0 {
            Some(response) => response.status_text.clone(),
            None => String::new(),
        };
        let (accepted, note) = read_verdict(&self.download, Some("Success"), fallback.as_str());
        frame.notes.push(note);
        proof {
            assert(shown(frame.notes@) =~= shown(old(frame).notes@).push(
                verdict(self.download, StatusView::Label("Success"@), reason(self.download)),
            ));
        }
        if accepted {
            Some(open_list())
        } else {
            None
        }
    }
}

/// What happened since the last frame of an [`EditRanking`].
pub struct EditInput {
    /// "Back" was pressed.
    pub back: bool,
    /// "Update" was pressed: the ranking as JSON text, or the message with
    /// which serializing it failed.
    pub update: Option<Result<Vec<u8>, String>>,
    /// The choices made on the form of the variables.
    pub picks: VariablesInput,
    /// "Create" was pressed: the variables as JSON text, or the message with
    /// which serializing them failed.
    pub create_variables: Option<Result<Vec<u8>, String>>,
    /// What parsing the fetched variables gave.
    pub variables: Option<Result<Variables, String>>,
    pub alternatives: SectionInput<Alternative>,
    pub experts: SectionInput<Expert>,
    pub criteria: SectionInput<Criterion>,
    pub scale: SectionInput<Scale>,
}

/// The address to which the variables of a ranking are posted.
pub open spec fn create_variables_address(base_url: Seq<char>, ranking_id: int) -> Seq<char> {
    address(base_url, "/create_variables/"@, ranking_id)
}

/// The message for variables that the service did not give.
pub open spec fn no_variables_code(status: u16) -> Seq<char> {
    "Failed to get variables, server responded with "@ + decimal(status as nat) + " status code"@
}

/// The warning to show for variables, as a note.
pub open spec fn warning_note(variables: Variables) -> StatusView {
    if variables.exists_in_ranking {
        StatusView::Quiet
    } else {
        StatusView::Label(no_variables())
    }
}

/// Whether the slot holds what the variables of a ranking are taken from:
/// a response with status 200 whose text could be parsed, or one with
/// status 404.
pub open spec fn variables_arrive(slot: Download, parsed: Option<Result<Variables, String>>) -> bool {
    slot.response() matches Some(response) && (response.status == 404 || (response.status == 200
        && response.text_of() is Some && parsed matches Some(Ok(_))))
}

/// The slot of the variables after one frame.
///
/// While the variables are known the slot carries what is posted, and
/// fetches them anew once the service has accepted. While they are not
/// known the slot is read, and is idle once the variables were taken from
/// it.
pub open spec fn variables_slot(
    before: (Option<Variables>, Download),
    create: Option<Result<Vec<u8>, String>>,
    parsed: Option<Result<Variables, String>>,
) -> Download {
    match before.0 {
        Some(_) => if submitted(before.1, create).succeeded() {
            Download { promise: Some(Promise::Pending), path: before.1.path }
        } else {
            submitted(before.1, create)
        },
        None => if variables_arrive(before.1, parsed) {
            Download { promise: None, path: before.1.path }
        } else {
            before.1
        },
    }
}

/// What a frame shows for the variables: the warning, then the state of
/// the slot.
pub open spec fn variables_notes(
    before: (Option<Variables>, Download),
    create: Option<Result<Vec<u8>, String>>,
    parsed: Option<Result<Variables, String>>,
) -> Seq<StatusView> {
    match before.0 {
        Some(variables) => seq![
            warning_note(variables),
            verdict(submitted(before.1, create), StatusView::Quiet, "Unknown error"@),
        ],
        None => seq![
            StatusView::Quiet,
            match before.1.response() {
                Some(response) => if response.status == 200 {
                    match (response.text_of(), parsed) {
                        (None, _) => StatusView::Label("Got empty response from server"@),
                        (Some(_), Some(Err(error))) => StatusView::Label(
                            "Failed to parse response due to: "@ + error@,
                        ),
                        _ => StatusView::Quiet,
                    }
                } else if response.status == 404 {
                    StatusView::Quiet
                } else {
                    StatusView::Label(no_variables_code(response.status))
                },
                None => before.1.waiting(),
            },
        ],
    }
}

/// The fetches that a frame starts for the variables: the post of the
/// variables that were submitted, and the fetch of the variables once the
/// service has accepted some.
pub open spec fn variables_fetches(
    before: (Option<Variables>, Download),
    create: Option<Result<Vec<u8>, String>>,
    ranking_id: int,
    base_url: Seq<char>,
    session: Session,
) -> Seq<(Slot, RequestView)> {
    match before.0 {
        Some(_) => posting(
            Slot::Variables,
            before.1,
            create,
            create_variables_address(base_url, ranking_id),
            session,
        ) + (if submitted(before.1, create).succeeded() {
            seq![(Slot::Variables, schema_get(variables_address(base_url, ranking_id), session))]
        } else {
            Seq::empty()
        }),
        None => Seq::empty(),
    }
}

/// Whether `after` is what the variables become in one frame.
///
/// Variables that are known take the choices of the form, until the
/// service has accepted a post: then they are forgotten. Variables that are
/// not known are taken from a response with status 200, marked as
/// existing; after a response with status 404 they are the ones that a
/// ranking is offered.
pub open spec fn variables_after(
    before: (Option<Variables>, Download),
    picks: VariablesInput,
    create: Option<Result<Vec<u8>, String>>,
    parsed: Option<Result<Variables, String>>,
    after: Option<Variables>,
) -> bool {
    match before.0 {
        Some(variables) => if submitted(before.1, create).succeeded() {
            after is None
        } else {
            after matches Some(chosen) && variables.picked(picks, chosen)
        },
        None => if !variables_arrive(before.1, parsed) {
            after is None
        } else if before.1.response()->0.status == 404 {
            after matches Some(offered) && offered.offered()
        } else {
            after == Some(Variables { exists_in_ranking: true, ..parsed->0->Ok_0 })
        },
    }
}

/// The change of screen that opens the editing of `ranking`.
pub(crate) fn open_edit(ranking: &Ranking, session: &Session, base_url: &str) -> (navigation:
    Navigation)
    ensures
        navigation.to_edit(*ranking, base_url@, *session),
{
    let (edit, fetches) = EditRanking::new(ranking, session, base_url);
    Navigation { screen: Screen::EditRanking(edit), fetches }
}

impl EditRanking {
    /// Where the frame of a screen for `ranking` leads, by what was pressed
    /// and by whether the service accepted an update: the form of the list
    /// that was asked for, the later list before the earlier one; else the
    /// list of rankings once an update was accepted.
    pub open spec fn leads(
        ranking: Ranking,
        updated: bool,
        input: EditInput,
        navigation: Option<Navigation>,
    ) -> bool {
        if input.scale.create {
            navigation matches Some(navigation) && navigation.to_new(Section::Scale, ranking)
        } else if input.criteria.create {
            navigation matches Some(navigation) && navigation.to_new(Section::Criteria, ranking)
        } else if input.experts.create {
            navigation matches Some(navigation) && navigation.to_new(Section::Experts, ranking)
        } else if input.alternatives.create {
            navigation matches Some(navigation) && navigation.to_new(Section::Alternatives, ranking)
        } else if updated {
            navigation matches Some(navigation) && navigation.to_list()
        } else {
            navigation is None
        }
    }

    /// Whether the screen is `before` once `outcome` was reported to
    /// `slot`.
    pub open spec fn resolved(
        self,
        before: EditRanking,
        slot: Slot,
        outcome: Result<Response, String>,
    ) -> bool {
        &&& self == (match slot {
            Slot::Info => EditRanking {
                ranking: Ranking { download: self.ranking.download, ..before.ranking },
                ..before
            },
            Slot::Variables => EditRanking { download_variables: self.download_variables, ..before },
            Slot::Alternatives => EditRanking {
                download_alternatives: self.download_alternatives,
                ..before
            },
            Slot::Experts => EditRanking { download_experts: self.download_experts, ..before },
            Slot::Criteria => EditRanking { download_criteria: self.download_criteria, ..before },
            Slot::Scale => EditRanking { download_scale: self.download_scale, ..before },
            _ => before,
        })
        &&& slot == Slot::Info ==> self.ranking.download.resolved_from(
            before.ranking.download,
            outcome,
        )
        &&& slot == Slot::Variables ==> self.download_variables.resolved_from(
            before.download_variables,
            outcome,
        )
        &&& slot == Slot::Alternatives ==> self.download_alternatives.resolved_from(
            before.download_alternatives,
            outcome,
        )
        &&& slot == Slot::Experts ==> self.download_experts.resolved_from(
            before.download_experts,
            outcome,
        )
        &&& slot == Slot::Criteria ==> self.download_criteria.resolved_from(
            before.download_criteria,
            outcome,
        )
        &&& slot == Slot::Scale ==> self.download_scale.resolved_from(before.download_scale, outcome)
    }

    /// Records the outcome of the fetch that `slot` waits for. The slot of
    /// actions is never used by this screen and takes nothing.
    pub fn resolve(&mut self, slot: Slot, outcome: Result<Response, String>)
        ensures
            final(self).resolved(*old(self), slot, outcome),
    {
        match slot {
            Slot::Info => self.ranking.download.resolve(outcome),
            Slot::Variables => self.download_variables.resolve(outcome),
            Slot::Alternatives => self.download_alternatives.resolve(outcome),
            Slot::Experts => self.download_experts.resolve(outcome),
            Slot::Criteria => self.download_criteria.resolve(outcome),
            Slot::Scale => self.download_scale.resolve(outcome),
            _ => {},
        }
    }

    /// One frame of the variables.
    fn show_variables(
        &mut self,
        picks: &VariablesInput,
        create: Option<Result<Vec<u8>, String>>,
        parsed: Option<Result<Variables, String>>,
        base_url: &str,
        session: &Session,
        frame: &mut Frame,
    )
        ensures
            *final(self) == (EditRanking {
                variables: final(self).variables,
                download_variables: final(self).download_variables,
                ..*old(self)
            }),
            final(frame).next == old(frame).next,
            final(self).download_variables == variables_slot(
                (old(self).variables, old(self).download_variables),
                create,
                parsed,
            ),
            variables_after(
                (old(self).variables, old(self).download_variables),
                *picks,
                create,
                parsed,
                final(self).variables,
            ),
            shown(final(frame).notes@) == shown(old(frame).notes@) + variables_notes(
                (old(self).variables, old(self).download_variables),
                create,
                parsed,
            ),
            sent(final(frame).fetches@) == sent(old(frame).fetches@) + variables_fetches(
                (old(self).variables, old(self).download_variables),
                create,
                old(self).ranking.ranking_id as int,
                base_url@,
                *session,
            ),
    {
        let ghost before = (self.variables, self.download_variables);
        let id = self.ranking.ranking_id;
        match self.variables.take() {
            Some(variables) => {
                let mut variables = variables;
                let warning = variables.show(picks);
                frame.notes.push(
                    match warning {
                        Some(words) => Status::Label(words),
                        None => Status::Quiet,
                    },
                );
                let mut dropped = String::new();
                let url = endpoint(base_url, "/create_variables/", id);
                hand_in(
                    &mut self.download_variables,
                    &mut dropped,
                    Slot::Variables,
                    create,
                    url,
                    session,
                    frame,
                );
                let (accepted, note) = read_verdict(&self.download_variables, None, "Unknown error");
                frame.notes.push(note);
                if accepted {
                    let url = endpoint(base_url, "/variables/", id);
                    let started = self.download_variables.get_schema(url, session);
                    queue(&mut frame.fetches, Slot::Variables, started);
                } else {
                    self.variables = Some(variables);
                }
            },
            None => {
                frame.notes.push(Status::Quiet);
                let (response, note) = self.download_variables.run_when_downloaded();
                let (note, loaded) = match response {
                    Some(response) => {
                        if response.status == 200 {
                            if response.text().is_none() {
                                (
                                    Status::Label(
                                        String::from_str("Got empty response from server"),
                                    ),
                                    None,
                                )
                            } else {
                                match parsed {
                                    Some(Ok(variables)) => {
                                        let mut variables = variables;
                                        variables.exists_in_ranking = true;
                                        (Status::Quiet, Some(variables))
                                    },
                                    Some(Err(error)) => (
                                        Status::Label(
                                            join(
                                                "Failed to parse response due to: ",
                                                error.as_str(),
                                            ),
                                        ),
                                        None,
                                    ),
                                    None => (Status::Quiet, None),
                                }
                            }
                        } else if response.status == 404 {
                            (Status::Quiet, Some(Variables::default()))
                        } else {
                            let mut words = String::from_str(
                                "Failed to get variables, server responded with ",
                            );
                            push_decimal(&mut words, response.status as u64);
                            words.append(" status code");
                            (Status::Label(words), None)
                        }
                    },
                    None => (note, None),
                };
                frame.notes.push(note);
                if loaded.is_some() {
                    self.variables = loaded;
                    self.download_variables.promise = None;
                }
            },
        }
        proof {
            assert(shown(frame.notes@) =~= shown(old(frame).notes@) + variables_notes(
                before,
                create,
                parsed,
            ));
            assert(sent(frame.fetches@) =~= sent(old(frame).fetches@) + variables_fetches(
                before,
                create,
                old(self).ranking.ranking_id as int,
                base_url@,
                *session,
            ));
        }
    }

    /// Whether `after` is the screen after one frame on `input`.
    pub open spec fn edited(self, input: EditInput, after: EditRanking) -> bool {
        &&& after.error == self.error
        &&& after.download == self.download
        &&& after.ranking.same_record(self.ranking)
        &&& after.ranking.download == submitted(self.ranking.download, input.update)
        &&& after.download_variables == variables_slot(
            (self.variables, self.download_variables),
            input.create_variables,
            input.variables,
        )
        &&& variables_after(
            (self.variables, self.download_variables),
            input.picks,
            input.create_variables,
            input.variables,
            after.variables,
        )
        &&& (after.alternatives_list, after.download_alternatives) == section_after(
            self.alternatives_list,
            self.download_alternatives,
            input.alternatives,
        )
        &&& (after.experts_list, after.download_experts) == section_after(
            self.experts_list,
            self.download_experts,
            input.experts,
        )
        &&& (after.criteria, after.download_criteria) == section_after(
            self.criteria,
            self.download_criteria,
            input.criteria,
        )
        &&& (after.scale, after.download_scale) == section_after(
            self.scale,
            self.download_scale,
            input.scale,
        )
    }

    /// What a frame on `input` shows: the state of the update, the two
    /// notes of the variables, and one note for each of the alternatives,
    /// the experts, the criteria and the scale.
    pub open spec fn notes(self, input: EditInput) -> Seq<StatusView> {
        let info = submitted(self.ranking.download, input.update);
        seq![verdict(info, StatusView::Label("Success"@), reason(info))] + variables_notes(
            (self.variables, self.download_variables),
            input.create_variables,
            input.variables,
        ) + seq![
            section_note(self.alternatives_list, self.download_alternatives, input.alternatives),
            section_note(self.experts_list, self.download_experts, input.experts),
            section_note(self.criteria, self.download_criteria, input.criteria),
            section_note(self.scale, self.download_scale, input.scale),
        ]
    }

    /// What a frame on `input` starts, in the order of the sections.
    pub open spec fn fetches(self, input: EditInput, base_url: Seq<char>, session: Session) -> Seq<
        (Slot, RequestView),
    > {
        let id = self.ranking.ranking_id as int;
        posting(
            Slot::Info,
            self.ranking.download,
            input.update,
            update_address(base_url, id),
            session,
        ) + variables_fetches(
            (self.variables, self.download_variables),
            input.create_variables,
            id,
            base_url,
            session,
        ) + section_fetches(
            Section::Alternatives,
            id,
            base_url,
            session,
            self.alternatives_list,
            self.download_alternatives,
            input.alternatives,
        ) + section_fetches(
            Section::Experts,
            id,
            base_url,
            session,
            self.experts_list,
            self.download_experts,
            input.experts,
        ) + section_fetches(
            Section::Criteria,
            id,
            base_url,
            session,
            self.criteria,
            self.download_criteria,
            input.criteria,
        ) + section_fetches(
            Section::Scale,
            id,
            base_url,
            session,
            self.scale,
            self.download_scale,
            input.scale,
        )
    }

    /// Whether `after` and `frame` are what one frame on `input` makes of
    /// the screen and asks of its surroundings.
    ///
    /// "Back" leads to the list of rankings and nothing else happens.
    /// Otherwise each section has its frame: the basic parameters, the
    /// variables, then the four lists. Each section has a slot of its own,
    /// so that what is fetched for one never waits for another.
    pub open spec fn shows(
        self,
        input: EditInput,
        base_url: Seq<char>,
        session: Session,
        after: EditRanking,
        frame: Frame,
    ) -> bool {
        if input.back {
            &&& after == self
            &&& frame.notes@.len() == 0
            &&& frame.fetches@.len() == 0
            &&& frame.next matches Some(navigation)
            &&& navigation.to_list()
        } else {
            &&& self.edited(input, after)
            &&& shown(frame.notes@) == self.notes(input)
            &&& sent(frame.fetches@) == self.fetches(input, base_url, session)
            &&& Self::leads(
                self.ranking,
                submitted(self.ranking.download, input.update).succeeded(),
                input,
                frame.next,
            )
        }
    }

    /// One frame of the screen.
    pub fn show(&mut self, input: EditInput, base_url: &str, session: &Session) -> (frame: Frame)
        ensures
            old(self).shows(input, base_url@, *session, *final(self), frame),
    {
        let mut frame = Frame::quiet();
        if input.back {
            frame.next = Some(open_list());
            return frame;
        }
        let leave = self.ranking.show_editable(input.update, base_url, session, &mut frame);
        frame.next = leave;
        self.show_variables(
            &input.picks,
            input.create_variables,
            input.variables,
            base_url,
            session,
            &mut frame,
        );
        if input.alternatives.create {
            frame.next = Some(
                Navigation {
                    screen: Screen::NewAlternative(NewAlternative::new(self.ranking.clone())),
                    fetches: Vec::new(),
                },
            );
        }
        show_section_list(
            Section::Alternatives,
            &self.ranking,
            base_url,
            session,
            &mut self.alternatives_list,
            &mut self.download_alternatives,
            input.alternatives,
            &mut frame,
        );
        if input.experts.create {
            frame.next = Some(
                Navigation {
                    screen: Screen::NewExpert(NewExpert::new(self.ranking.clone())),
                    fetches: Vec::new(),
                },
            );
        }
        show_section_list(
            Section::Experts,
            &self.ranking,
            base_url,
            session,
            &mut self.experts_list,
            &mut self.download_experts,
            input.experts,
            &mut frame,
        );
        if input.criteria.create {
            frame.next = Some(
                Navigation {
                    screen: Screen::NewCriterion(
                        NewThing::new(Criterion::default(), self.ranking.clone(), Section::Criteria),
                    ),
                    fetches: Vec::new(),
                },
            );
        }
        show_section_list(
            Section::Criteria,
            &self.ranking,
            base_url,
            session,
            &mut self.criteria,
            &mut self.download_criteria,
            input.criteria,
            &mut frame,
        );
        if input.scale.create {
            frame.next = Some(
                Navigation {
                    screen: Screen::NewScale(
                        NewThing::new(Scale::default(), self.ranking.clone(), Section::Scale),
                    ),
                    fetches: Vec::new(),
                },
            );
        }
        show_section_list(
            Section::Scale,
            &self.ranking,
            base_url,
            session,
            &mut self.scale,
            &mut self.download_scale,
            input.scale,
            &mut frame,
        );
        proof {
            assert(shown(frame.notes@) =~= old(self).notes(input));
            assert(sent(frame.fetches@) =~= old(self).fetches(input, base_url@, *session));
        }
        frame
    }
}

} // verus!
