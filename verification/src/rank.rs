//! The voting flow of one ranking: pair against pair under each criterion,
//! then a weight for each criterion.

use vstd::prelude::*;
use combinations::Combinations;
use crate::download::Download;
use crate::download::Promise;
use crate::download::Status;
use crate::download::StatusView;
use crate::download::note_of;
use crate::download::schema_get;
use crate::http::Response;
use crate::login::Session;
use crate::pairing::generator_of;
use crate::pairing::every_pair_once;
use crate::pairing::is_pair;
use crate::pairing::next_combination;
use crate::pairing::pairs;
use crate::pairing::places;
use crate::pairing::upcoming;
use crate::ranking_list::RankingList;
use crate::schema::Alternative;
use crate::schema::Criterion;
use crate::schema::Ranking;
use crate::schema::Scale;
use crate::section::Section;
use crate::text::address;
use crate::text::join;
use crate::text::counted;
use crate::text::decimal;
use crate::text::endpoint;
use crate::view::Fetch;
use crate::view::Frame;
use crate::view::Navigation;
use crate::view::Screen;
use crate::view::Slot;
use crate::view::posting;
use crate::view::queue;
use crate::view::sent;
use crate::view::shown;

verus! {

/// A judgment between two alternatives under one criterion.
#[allow(non_snake_case)]
#[derive(Debug, Clone, Copy, PartialEq, Eq, Structural)]
pub struct ABInput {
    pub alternativeA_id: i64,
    pub alternativeB_id: i64,
    pub winner_id: i64,
    pub expert_id: u64,
    pub criteria_id: i64,
}

/// The importance that an expert gives to one criterion of a ranking.
#[derive(Debug, Clone, Copy, PartialEq, Eq, Structural)]
pub struct Weights {
    pub weights_id: i64,
    pub ranking_id: i64,
    pub expert_id: u64,
    pub criteria_id: i64,
    pub scale_id: i64,
}

/// The part of the flow that a view is in.
#[derive(Debug, Clone, Copy, PartialEq, Eq, Structural)]
pub enum RankMode {
    Alternative,
    Criterion,
    Finished,
}

/// One of the two alternatives that are presented together.
#[derive(Debug, Clone, Copy, PartialEq, Eq, Structural)]
pub enum Side {
    First,
    Second,
}

/// What a view presents.
#[derive(Debug, Clone, Copy, PartialEq, Eq, Structural)]
pub enum Stage {
    /// A list is missing, or no pair has been drawn.
    Loading,
    /// There is too little to compare.
    Shortage,
    /// Two alternatives, by their places in the list, under a criterion.
    Pair { criterion: usize, first: usize, second: usize },
    /// A criterion to weigh, and the level that is selected.
    Weigh { criterion: usize, level: usize },
    /// The flow is over.
    Thanks,
}

/// A click on one of the presented pair, with the judgment as JSON text, or
/// the message with which serializing it failed.
pub struct Vote {
    pub winner: Side,
    pub json: Result<Vec<u8>, String>,
}

/// What happened since the last frame of a [`RankView`].
pub struct RankInput {
    /// "Back" was pressed. Only administrators are offered it.
    pub back: bool,
    /// What parsing the fetched list of alternatives gave.
    pub alternatives: Option<Result<Vec<Alternative>, String>>,
    /// What parsing the fetched list of criteria gave.
    pub criteria: Option<Result<Vec<Criterion>, String>>,
    /// What parsing the fetched scale gave.
    pub scale: Option<Result<Vec<Scale>, String>>,
    /// One of the presented pair was chosen.
    pub vote: Option<Vote>,
    /// A level of the scale was selected.
    pub level: Option<usize>,
    /// "Submit" was pressed: the weight as JSON text, or the message with
    /// which serializing it failed.
    pub submit: Option<Result<Vec<u8>, String>>,
}

/// The voting flow of one ranking.
pub struct RankView {
    pub ranking: Ranking,
    pub alternatives_list: Option<Vec<Alternative>>,
    pub criteria: Option<Vec<Criterion>>,
    pub scale: Option<Vec<Scale>>,
    pub error: String,
    /// The slot of votes and weights.
    pub download: Download,
    pub download_alternatives: Download,
    pub download_criteria: Download,
    pub download_scale: Download,
    /// The pairs of the current criterion that are still to come.
    pub alternative_combinations: Option<Combinations<usize>>,
    /// The places, in the list of alternatives, of the pair that is presented.
    pub current_combination_pair: Vec<usize>,
    /// Whether the next pair is to be drawn.
    pub next_combination: bool,
    pub current_criterion: usize,
    pub rank_mode: RankMode,
    /// The place, in the scale, of the selected level.
    pub scale_ix: usize,
}

/// The message for a list that is too short to compare anything.
pub open spec fn shortage_message(count: nat, things: Seq<char>) -> Seq<char> {
    "There are only "@ + decimal(count) + things
}

/// The message for a vote or a weight that the service refused.
pub open spec fn refusal(response: Response) -> Seq<char> {
    "Failed, server responed with: "@ + decimal(response.status as nat) + " "@
        + response.status_text@
}

/// A list as soon as it is known: the list that is there, else the parsed
/// one where the slot holds a successful response with a text.
pub open spec fn known<T>(list: Option<Vec<T>>, slot: Download, parsed: Option<Result<Vec<T>, String>>)
    -> Option<Vec<T>> {
    match (list, parsed) {
        (None, Some(Ok(fresh))) if slot.readable() => Some(fresh),
        _ => list,
    }
}

/// The numbers below `n`, in order.
fn places_of(n: usize) -> (items: Vec<usize>)
    ensures
        items@ == places(n as nat),
{
    let mut items: Vec<usize> = Vec::new();
    let mut i: usize = 0;
    while i < n
        invariant
            i <= n,
            items@ == places(i as nat),
        decreases n - i,
    {
        items.push(i);
        i = i + 1;
        assert(items@ =~= places(i as nat));
    }
    items
}

/// Keeps a list that is known, else takes the parsed one if there is one.
fn settle_list<T>(list: &mut Option<Vec<T>>, slot: &Download, parsed: Option<Result<Vec<T>, String>>)
    -> (note: Status)
    ensures
        *final(list) == known(*old(list), *slot, parsed),
        note@ == note_of(*slot, parsed),
{
    let (fresh, note) = slot.deserialize_when_got(parsed);
    if list.is_none() {
        *list = fresh;
    }
    note
}

impl RankView {
    /// The number of alternatives, once they are known.
    pub open spec fn breadth(&self) -> nat {
        match self.alternatives_list {
            Some(list) => list@.len(),
            None => 0,
        }
    }

    /// The number of criteria, once they are known.
    pub open spec fn depth(&self) -> nat {
        match self.criteria {
            Some(list) => list@.len(),
            None => 0,
        }
    }

    /// The number of levels of the scale, once they are known.
    pub open spec fn levels(&self) -> nat {
        match self.scale {
            Some(list) => list@.len(),
            None => 0,
        }
    }

    /// Whether the three lists are known.
    pub open spec fn loaded(&self) -> bool {
        self.alternatives_list is Some && self.criteria is Some && self.scale is Some
    }

    /// Whether a list is too short: fewer than three alternatives, fewer
    /// than two criteria, or fewer than two levels.
    pub open spec fn short(&self) -> bool {
        self.breadth() < 3 || self.depth() < 2 || self.levels() < 2
    }

    /// Whether the lists are known and long enough to vote on.
    pub open spec fn votable(&self) -> bool {
        self.loaded() && !self.short()
    }

    /// The pairs of the current criterion that have not been drawn. Before
    /// the first draw these are all of them.
    pub open spec fn remaining(&self) -> Seq<Seq<usize>> {
        match self.alternative_combinations {
            Some(generator) => upcoming(generator),
            None => pairs(places(self.breadth())),
        }
    }

    /// The number of pairs of the current criterion that have been drawn.
    pub open spec fn drawn(&self) -> int {
        pairs(places(self.breadth())).len() - self.remaining().len()
    }

    /// Whether a pair is presented: one was drawn, under a criterion of the
    /// list, and the flow is at the pairs.
    pub open spec fn presenting(&self) -> bool {
        &&& self.votable()
        &&& self.rank_mode == RankMode::Alternative
        &&& !self.next_combination
        &&& self.current_criterion < self.depth()
    }

    /// Whether a criterion is presented to be weighed.
    pub open spec fn weighing(&self) -> bool {
        &&& self.votable()
        &&& self.rank_mode == RankMode::Criterion
        &&& self.current_criterion < self.depth()
    }

    /// The invariant of the flow.
    ///
    /// The pairs still to come are the tail of all pairs of the
    /// alternatives, so that each pair is drawn once for each criterion. A
    /// drawn pair holds two places of the list. The selected level is a
    /// place of the scale, and the criterion at most one past the last.
    pub open spec fn wf(&self) -> bool {
        &&& self.alternative_combinations is Some ==> self.breadth() >= 3
        &&& 0 <= self.drawn() <= pairs(places(self.breadth())).len()
        &&& self.remaining() == pairs(places(self.breadth())).skip(self.drawn())
        &&& !self.next_combination ==> {
            &&& self.alternative_combinations is Some
            &&& self.drawn() >= 1
            &&& self.current_combination_pair@ == pairs(places(self.breadth()))[self.drawn() - 1]
        }
        &&& self.scale_ix < self.levels() || self.scale_ix == 0
        &&& self.current_criterion <= self.depth()
        &&& self.rank_mode == RankMode::Alternative ==> self.current_criterion == 0
            || self.current_criterion < self.depth()
    }

    /// What the view presents.
    pub open spec fn stage_of(&self) -> Stage {
        if !self.loaded() {
            Stage::Loading
        } else if self.short() {
            Stage::Shortage
        } else if self.rank_mode == RankMode::Finished {
            Stage::Thanks
        } else if self.rank_mode == RankMode::Criterion {
            if self.current_criterion < self.depth() {
                Stage::Weigh { criterion: self.current_criterion, level: self.scale_ix }
            } else {
                Stage::Thanks
            }
        } else if self.presenting() {
            Stage::Pair {
                criterion: self.current_criterion,
                first: self.current_combination_pair@[0],
                second: self.current_combination_pair@[1],
            }
        } else {
            Stage::Loading
        }
    }

    /// The view once the parsed lists have been taken in.
    pub open spec fn absorbed(self, input: RankInput) -> RankView {
        RankView {
            alternatives_list: known(
                self.alternatives_list,
                self.download_alternatives,
                input.alternatives,
            ),
            criteria: known(self.criteria, self.download_criteria, input.criteria),
            scale: known(self.scale, self.download_scale, input.scale),
            ..self
        }
    }

    /// What is shown for the slots of the three lists.
    pub open spec fn list_notes(self, input: RankInput) -> Seq<StatusView> {
        seq![
            note_of(self.download_alternatives, input.alternatives),
            note_of(self.download_criteria, input.criteria),
            note_of(self.download_scale, input.scale),
        ]
    }

    /// The message that names the list that is too short: the alternatives
    /// before the criteria, the criteria before the scale.
    pub open spec fn shortage(self) -> Seq<char> {
        if self.breadth() < 3 {
            shortage_message(self.breadth(), " alternatives, nothing to compare :("@)
        } else if self.depth() < 2 {
            shortage_message(self.depth(), " criteria, nothing to compare:)"@)
        } else {
            shortage_message(self.levels(), " scales, nothing to compare:)"@)
        }
    }

    /// The judgment that a click on `winner` stands for.
    pub open spec fn ballot_of(self, winner: Side, session: Session) -> ABInput {
        let first = self.alternatives_list->0@[self.current_combination_pair@[0] as int];
        let second = self.alternatives_list->0@[self.current_combination_pair@[1] as int];
        ABInput {
            alternativeA_id: first.alternative_id,
            alternativeB_id: second.alternative_id,
            winner_id: match winner {
                Side::First => first.alternative_id,
                Side::Second => second.alternative_id,
            },
            expert_id: session.user_info.expert_id,
            criteria_id: self.criteria->0@[self.current_criterion as int].criteria_id,
        }
    }

    /// The weight that "Submit" stands for.
    pub open spec fn weight_of(self, session: Session) -> Weights {
        Weights {
            weights_id: 0,
            ranking_id: self.ranking.ranking_id,
            expert_id: session.user_info.expert_id,
            criteria_id: self.criteria->0@[self.current_criterion as int].criteria_id,
            scale_id: self.scale->0@[self.scale_ix as int].scale_id,
        }
    }

    /// The view once a record was handed in on its slot: with JSON text the
    /// slot waits, for the fetch that it waited for already or for the one
    /// that hands the record in; without it the message is kept.
    pub open spec fn posted(self, json: Result<Vec<u8>, String>) -> RankView {
        match json {
            Ok(_) => RankView {
                download: Download { promise: Some(Promise::Pending), path: self.download.path },
                ..self
            },
            Err(error) => RankView { error, ..self },
        }
    }

    /// What is shown for the slot of votes and weights.
    pub open spec fn answer_note(self) -> StatusView {
        match self.download.response() {
            Some(response) => if response.ok {
                StatusView::Quiet
            } else {
                StatusView::Label(refusal(response))
            },
            None => self.download.waiting(),
        }
    }

    /// The view once an accepted vote or weight has been taken note of: the
    /// slot is idle again.
    pub open spec fn released(self) -> RankView {
        if self.download.succeeded() {
            RankView { download: Download { promise: None, path: self.download.path }, ..self }
        } else {
            self
        }
    }

    /// Whether `after` differs from the view in nothing but the pair, the
    /// pairs to come, whether one is to be drawn, the criterion and the part
    /// of the flow.
    pub open spec fn same_but_progress(self, after: RankView) -> bool {
        &&& after.ranking == self.ranking
        &&& after.alternatives_list == self.alternatives_list
        &&& after.criteria == self.criteria
        &&& after.scale == self.scale
        &&& after.error == self.error
        &&& after.download == self.download
        &&& after.download_alternatives == self.download_alternatives
        &&& after.download_criteria == self.download_criteria
        &&& after.download_scale == self.download_scale
        &&& after.scale_ix == self.scale_ix
    }

    /// Whether `after` is the view once the next pair has been drawn.
    ///
    /// While pairs of the criterion are left, the first of them is
    /// presented. After the last one the next criterion begins with all
    /// pairs anew; after the last criterion the flow turns to the weights,
    /// from the first criterion on.
    pub open spec fn advanced(self, after: RankView) -> bool {
        let all = pairs(places(self.breadth()));
        &&& self.same_but_progress(after)
        &&& if self.remaining().len() > 0 {
            &&& after.current_combination_pair@ == self.remaining().first()
            &&& after.remaining() == self.remaining().drop_first()
            &&& !after.next_combination
            &&& after.current_criterion == self.current_criterion
            &&& after.rank_mode == RankMode::Alternative
        } else if self.current_criterion + 1 < self.depth() {
            &&& after.current_combination_pair@ == all.first()
            &&& after.remaining() == all.drop_first()
            &&& !after.next_combination
            &&& after.current_criterion == self.current_criterion + 1
            &&& after.rank_mode == RankMode::Alternative
        } else {
            &&& after.current_combination_pair@ == self.current_combination_pair@
            &&& after.remaining() == all
            &&& after.next_combination
            &&& after.current_criterion == 0
            &&& after.rank_mode == RankMode::Criterion
        }
    }

    /// What the view presents.
    pub fn stage(&self) -> (stage: Stage)
        requires
            self.wf(),
        ensures
            stage == self.stage_of(),
    {
        let (breadth, depth, levels) = match (&self.alternatives_list, &self.criteria, &self.scale) {
            (Some(alternatives), Some(criteria), Some(scale)) => (
                alternatives.len(),
                criteria.len(),
                scale.len(),
            ),
            _ => { return Stage::Loading; },
        };
        if breadth < 3 || depth < 2 || levels < 2 {
            return Stage::Shortage;
        }
        match self.rank_mode {
            RankMode::Finished => Stage::Thanks,
            RankMode::Criterion => {
                if self.current_criterion < depth {
                    Stage::Weigh { criterion: self.current_criterion, level: self.scale_ix }
                } else {
                    Stage::Thanks
                }
            },
            RankMode::Alternative => {
                if !self.next_combination && self.current_criterion < depth {
                    proof {
                        every_pair_once(self.breadth());
                    }
                    Stage::Pair {
                        criterion: self.current_criterion,
                        first: self.current_combination_pair[0],
                        second: self.current_combination_pair[1],
                    }
                } else {
                    Stage::Loading
                }
            },
        }
    }

    /// The judgment that a click on `winner` stands for, while a pair is
    /// presented.
    pub fn ballot(&self, winner: Side, session: &Session) -> (ballot: Option<ABInput>)
        requires
            self.wf(),
        ensures
            ballot == (if self.presenting() {
                Some(self.ballot_of(winner, *session))
            } else {
                None
            }),
    {
        match self.stage() {
            Stage::Pair { criterion, first, second } => {
                let alternatives = self.alternatives_list.as_ref().unwrap();
                let criteria = self.criteria.as_ref().unwrap();
                let breadth = alternatives.len();
                proof {
                    every_pair_once(breadth as nat);
                }
                let a = alternatives[first].alternative_id;
                let b = alternatives[second].alternative_id;
                Some(
                    ABInput {
                        alternativeA_id: a,
                        alternativeB_id: b,
                        winner_id: match winner {
                            Side::First => a,
                            Side::Second => b,
                        },
                        expert_id: session.user_info.expert_id,
                        criteria_id: criteria[criterion].criteria_id,
                    },
                )
            },
            _ => None,
        }
    }

    /// The weight that "Submit" stands for, while a criterion is presented.
    pub fn weight(&self, session: &Session) -> (weight: Option<Weights>)
        requires
            self.wf(),
        ensures
            weight == (if self.weighing() {
                Some(self.weight_of(*session))
            } else {
                None
            }),
    {
        match self.stage() {
            Stage::Weigh { criterion, level } => {
                let criteria = self.criteria.as_ref().unwrap();
                let scale = self.scale.as_ref().unwrap();
                Some(
                    Weights {
                        weights_id: 0,
                        ranking_id: self.ranking.ranking_id,
                        expert_id: session.user_info.expert_id,
                        criteria_id: criteria[criterion].criteria_id,
                        scale_id: scale[level].scale_id,
                    },
                )
            },
            _ => None,
        }
    }

    /// The words that close the flow.
    pub fn thanks(session: &Session) -> (words: String)
        ensures
            words@ == "Thank you, "@ + session.user_info.name@
                + " for taking part in our ranking"@,
    {
        let mut words = join("Thank you, ", session.user_info.name.as_str());
        words.append(" for taking part in our ranking");
        words
    }

    /// Whether the view is `before` once `outcome` was reported to `slot`.
    pub open spec fn resolved(
        self,
        before: RankView,
        slot: Slot,
        outcome: Result<Response, String>,
    ) -> bool {
        &&& self == (match slot {
            Slot::Action => RankView { download: self.download, ..before },
            Slot::Alternatives => RankView {
                download_alternatives: self.download_alternatives,
                ..before
            },
            Slot::Criteria => RankView { download_criteria: self.download_criteria, ..before },
            Slot::Scale => RankView { download_scale: self.download_scale, ..before },
            _ => before,
        })
        &&& slot == Slot::Action ==> self.download.resolved_from(before.download, outcome)
        &&& slot == Slot::Alternatives ==> self.download_alternatives.resolved_from(
            before.download_alternatives,
            outcome,
        )
        &&& slot == Slot::Criteria ==> self.download_criteria.resolved_from(
            before.download_criteria,
            outcome,
        )
        &&& slot == Slot::Scale ==> self.download_scale.resolved_from(before.download_scale, outcome)
    }

    /// Records the outcome of the fetch that `slot` waits for. A slot that
    /// the view does not have takes nothing.
    pub fn resolve(&mut self, slot: Slot, outcome: Result<Response, String>)
        requires
            old(self).wf(),
        ensures
            final(self).wf(),
            final(self).resolved(*old(self), slot, outcome),
    {
        match slot {
            Slot::Action => self.download.resolve(outcome),
            Slot::Alternatives => self.download_alternatives.resolve(outcome),
            Slot::Criteria => self.download_criteria.resolve(outcome),
            Slot::Scale => self.download_scale.resolve(outcome),
            _ => {},
        }
    }

    /// The view once the click on one of the pair, if there was one while a
    /// pair was presented, has been handed in and the answer of the service
    /// has been read: an accepted vote frees the slot and calls for the next
    /// pair.
    pub open spec fn voted(self, vote: Option<Vote>) -> RankView {
        let cast = if self.presenting() && vote is Some {
            self.posted(vote->0.json)
        } else {
            self
        };
        RankView {
            next_combination: cast.next_combination || cast.download.succeeded(),
            ..cast.released()
        }
    }

    /// What a frame shows and starts while the flow is at the pairs.
    pub open spec fn voting_frame(self, input: RankInput, base_url: Seq<char>, session: Session) -> (
        Seq<StatusView>,
        Seq<(Slot, crate::http::RequestView)>,
    ) {
        if self.presenting() && input.vote is Some {
            (
                self.list_notes(input) + seq![
                    StatusView::Label(self.error@),
                    self.posted(input.vote->0.json).answer_note(),
                ],
                posting(
                    Slot::Action,
                    self.download,
                    Some(input.vote->0.json),
                    address(base_url, "/rankAB/"@, self.ranking.ranking_id as int),
                    session,
                ),
            )
        } else {
            (self.list_notes(input) + seq![self.answer_note()], Seq::empty())
        }
    }

    /// The view with the level that was selected, if it is one of the scale.
    pub open spec fn leveled(self, level: Option<usize>) -> RankView {
        match level {
            Some(level) if level < self.levels() => RankView { scale_ix: level, ..self },
            _ => self,
        }
    }

    /// The view once the selected level and the weight, if one was
    /// submitted, have been handed in and the answer of the service has been
    /// read: an accepted weight frees the slot and leads to the next
    /// criterion, and after the last criterion the flow is over.
    pub open spec fn weighed(self, input: RankInput) -> RankView {
        if self.current_criterion < self.depth() {
            let chosen = self.leveled(input.level);
            let cast = match input.submit {
                Some(json) => chosen.posted(json),
                None => chosen,
            };
            let criterion = if cast.download.succeeded() {
                (cast.current_criterion + 1) as usize
            } else {
                cast.current_criterion
            };
            RankView {
                current_criterion: criterion,
                rank_mode: if criterion < self.depth() {
                    RankMode::Criterion
                } else {
                    RankMode::Finished
                },
                ..cast.released()
            }
        } else {
            RankView { rank_mode: RankMode::Finished, ..self }
        }
    }

    /// What a frame shows and starts while the flow is at the weights.
    pub open spec fn weighing_frame(self, input: RankInput, base_url: Seq<char>, session: Session) -> (
        Seq<StatusView>,
        Seq<(Slot, crate::http::RequestView)>,
    ) {
        if self.current_criterion < self.depth() {
            match input.submit {
                Some(json) => (
                    self.list_notes(input) + seq![
                        StatusView::Label(self.error@),
                        self.posted(json).answer_note(),
                    ],
                    posting(
                        Slot::Action,
                        self.download,
                        Some(json),
                        address(base_url, "/weight/"@, self.ranking.ranking_id as int),
                        session,
                    ),
                ),
                None => (self.list_notes(input) + seq![self.answer_note()], Seq::empty()),
            }
        } else {
            (self.list_notes(input), Seq::empty())
        }
    }

    /// Hands in a record on the slot of votes and weights.
    fn post(
        &mut self,
        json: Result<Vec<u8>, String>,
        url: String,
        session: &Session,
        frame: &mut Frame,
    )
        ensures
            *final(self) == old(self).posted(json),
            shown(final(frame).notes@) == shown(old(frame).notes@).push(
                StatusView::Label(old(self).error@),
            ),
            sent(final(frame).fetches@) == sent(old(frame).fetches@) + posting(
                Slot::Action,
                old(self).download,
                Some(json),
                url@,
                *session,
            ),
            final(frame).next == old(frame).next,
    {
        frame.notes.push(Status::Label(self.error.clone()));
        match self.download.post_schema(json, url, session) {
            Ok(started) => {
                queue(&mut frame.fetches, Slot::Action, started);
            },
            Err(error) => {
                self.error = error;
            },
        }
        proof {
            assert(shown(frame.notes@) =~= shown(old(frame).notes@).push(
                StatusView::Label(old(self).error@),
            ));
            assert(sent(frame.fetches@) =~= sent(old(frame).fetches@) + posting(
                Slot::Action,
                old(self).download,
                Some(json),
                url@,
                *session,
            ));
        }
    }

    /// Reads the answer of the service to a vote or a weight, and frees the
    /// slot if the service accepted it.
    fn answer(&mut self, frame: &mut Frame) -> (accepted: bool)
        ensures
            accepted == old(self).download.succeeded(),
            *final(self) == old(self).released(),
            shown(final(frame).notes@) == shown(old(frame).notes@).push(old(self).answer_note()),
            final(frame).fetches == old(frame).fetches,
            final(frame).next == old(frame).next,
    {
        let (response, note) = self.download.run_when_downloaded();
        let (accepted, note) = match response {
            Some(response) => {
                if response.ok {
                    (true, Status::Quiet)
                } else {
                    let mut words = String::from_str("Failed, server responed with: ");
                    crate::text::push_decimal(&mut words, response.status as u64);
                    words.append(" ");
                    words.append(response.status_text.as_str());
                    (false, Status::Label(words))
                }
            },
            None => (false, note),
        };
        frame.notes.push(note);
        if accepted {
            self.download.promise = None;
        }
        proof {
            assert(shown(frame.notes@) =~= shown(old(frame).notes@).push(old(self).answer_note()));
        }
        accepted
    }

    /// Draws the next pair.
    fn draw(&mut self)
        requires
            old(self).wf(),
            old(self).votable(),
            old(self).rank_mode == RankMode::Alternative,
            old(self).next_combination,
            old(self).current_criterion < old(self).depth(),
        ensures
            final(self).wf(),
            old(self).advanced(*final(self)),
    {
        let breadth = self.alternatives_list.as_ref().unwrap().len();
        let depth = self.criteria.as_ref().unwrap().len();
        proof {
            every_pair_once(breadth as nat);
        }
        let ghost all = pairs(places(breadth as nat));
        let ghost before = self.remaining();
        let mut generator = match self.alternative_combinations.take() {
            Some(generator) => generator,
            None => generator_of(places_of(breadth), 2),
        };
        assert(upcoming(generator) == before);
        let more = next_combination(&mut generator, &mut self.current_combination_pair);
        if more {
            self.next_combination = false;
            self.alternative_combinations = Some(generator);
            proof {
                let k = all.len() - before.len();
                assert(before.drop_first() =~= all.skip(k + 1));
                assert(before.first() == all[k]);
            }
        } else {
            self.current_criterion = self.current_criterion + 1;
            let mut fresh = generator_of(places_of(breadth), 2);
            if self.current_criterion < depth {
                assert(2 * all.len() == breadth * (breadth - 1));
                assert(all.len() > 0) by (nonlinear_arith)
                    requires
                        2 * all.len() == breadth * (breadth - 1),
                        breadth >= 3,
                ;
                let first = next_combination(&mut fresh, &mut self.current_combination_pair);
                self.next_combination = false;
                proof {
                    assert(all.drop_first() =~= all.skip(1));
                }
            } else {
                self.current_criterion = 0;
                self.rank_mode = RankMode::Criterion;
                proof {
                    assert(all.skip(0) =~= all);
                }
            }
            self.alternative_combinations = Some(fresh);
        }
    }

    /// Whether the view is one of `ranking` in which nothing has happened but
    /// the start of the fetches of the three lists.
    pub open spec fn fresh(self, ranking: Ranking) -> bool {
        &&& self.ranking.same_record(ranking)
        &&& self.ranking.download.promise is None
        &&& self.alternatives_list is None
        &&& self.criteria is None
        &&& self.scale is None
        &&& self.error@.len() == 0
        &&& self.download.promise is None
        &&& self.download_alternatives.pending()
        &&& self.download_criteria.pending()
        &&& self.download_scale.pending()
        &&& self.alternative_combinations is None
        &&& self.next_combination
        &&& self.current_criterion == 0
        &&& self.rank_mode == RankMode::Alternative
        &&& self.scale_ix == 0
    }

    /// The fetches that a view starts with: the alternatives, the criteria
    /// and the scale of its ranking.
    pub open spec fn first_fetches(ranking_id: int, base_url: Seq<char>, session: Session) -> Seq<
        (Slot, crate::http::RequestView),
    > {
        seq![
            (
                Slot::Alternatives,
                schema_get(Section::Alternatives.list_address(base_url, ranking_id), session),
            ),
            (Slot::Criteria, schema_get(Section::Criteria.list_address(base_url, ranking_id), session)),
            (Slot::Scale, schema_get(Section::Scale.list_address(base_url, ranking_id), session)),
        ]
    }

    /// A view of `ranking` that has started to fetch its alternatives, its
    /// criteria and its scale, in this order.
    pub fn new(ranking: &Ranking, base_url: &str, session: &Session) -> (started: (
        RankView,
        Vec<Fetch>,
    ))
        ensures
            started.0.wf(),
            started.0.fresh(*ranking),
            sent(started.1@) == Self::first_fetches(ranking.ranking_id as int, base_url@, *session),
    {
        let mut view = RankView {
            ranking: ranking.clone(),
            alternatives_list: None,
            criteria: None,
            scale: None,
            error: String::new(),
            download: Download::default(),
            download_alternatives: Download::default(),
            download_criteria: Download::default(),
            download_scale: Download::default(),
            alternative_combinations: None,
            current_combination_pair: Vec::new(),
            next_combination: true,
            current_criterion: 0,
            rank_mode: RankMode::Alternative,
            scale_ix: 0,
        };
        let mut fetches: Vec<Fetch> = Vec::new();
        let id = ranking.ranking_id;
        let started = view.download_alternatives.get_schema(
            Section::Alternatives.list_url(base_url, id),
            session,
        );
        queue(&mut fetches, Slot::Alternatives, started);
        let started = view.download_criteria.get_schema(
            Section::Criteria.list_url(base_url, id),
            session,
        );
        queue(&mut fetches, Slot::Criteria, started);
        let started = view.download_scale.get_schema(Section::Scale.list_url(base_url, id), session);
        queue(&mut fetches, Slot::Scale, started);
        proof {
            assert(sent(fetches@) =~= Self::first_fetches(
                ranking.ranking_id as int,
                base_url@,
                *session,
            ));
            assert(pairs(places(0)).skip(0) =~= pairs(places(0)));
        }
        (view, fetches)
    }

    /// Whether `after` and `frame` are what one frame on `input` makes of
    /// the view and asks of its surroundings.
    ///
    /// An administrator who pressed "Back" leaves for the list of rankings.
    /// Otherwise the lists that have arrived are taken in. While one is
    /// missing the frame shows a spinner, and while one is too short it
    /// names the shortage: in both cases nothing is sent. Else the frame
    /// hands in the vote or the weight of its input, reads the answer of the
    /// service, and moves on where the service accepted.
    pub open spec fn shows(
        self,
        input: RankInput,
        base_url: Seq<char>,
        session: Session,
        after: RankView,
        frame: Frame,
    ) -> bool {
        if session.user_info.admin && input.back {
            &&& after == self
            &&& frame.notes@.len() == 0
            &&& frame.fetches@.len() == 0
            &&& frame.next matches Some(navigation)
            &&& navigation.to_list()
        } else {
            let mid = self.absorbed(input);
            &&& frame.next is None
            &&& !mid.loaded() ==> {
                &&& after == mid
                &&& shown(frame.notes@) == mid.list_notes(input).push(StatusView::Spinner)
                &&& frame.fetches@.len() == 0
            }
            &&& mid.loaded() && mid.short() ==> {
                &&& after == mid
                &&& shown(frame.notes@) == mid.list_notes(input).push(
                    StatusView::Label(mid.shortage()),
                )
                &&& frame.fetches@.len() == 0
            }
            &&& mid.votable() && mid.rank_mode == RankMode::Alternative ==> {
                &&& (shown(frame.notes@), sent(frame.fetches@)) == mid.voting_frame(
                    input,
                    base_url,
                    session,
                )
                &&& if mid.voted(input.vote).next_combination {
                    mid.voted(input.vote).advanced(after)
                } else {
                    after == mid.voted(input.vote)
                }
            }
            &&& mid.votable() && mid.rank_mode == RankMode::Criterion ==> {
                &&& (shown(frame.notes@), sent(frame.fetches@)) == mid.weighing_frame(
                    input,
                    base_url,
                    session,
                )
                &&& after == mid.weighed(input)
            }
            &&& mid.votable() && mid.rank_mode == RankMode::Finished ==> {
                &&& after == mid
                &&& shown(frame.notes@) == mid.list_notes(input)
                &&& frame.fetches@.len() == 0
            }
        }
    }

    /// The pairs of a criterion come in turn, each once: the draw after `k`
    /// draws presents the pair at place `k` of all pairs of the
    /// alternatives, under the same criterion. Only when all have been
    /// drawn does the next criterion begin, with the first pair again, and
    /// after the last criterion the flow turns to the weights.
    pub proof fn pairs_come_in_turn(before: RankView, after: RankView)
        requires
            before.wf(),
            before.votable(),
            before.breadth() <= usize::MAX,
            before.advanced(after),
        ensures
            ({
                let all = pairs(places(before.breadth()));
                let drawn = before.drawn();
                if drawn < all.len() {
                    &&& after.current_combination_pair@ == all[drawn]
                    &&& is_pair(after.current_combination_pair@, before.breadth())
                    &&& after.drawn() == drawn + 1
                    &&& after.current_criterion == before.current_criterion
                    &&& after.rank_mode == RankMode::Alternative
                } else if before.current_criterion + 1 < before.depth() {
                    &&& after.current_combination_pair@ == all[0]
                    &&& is_pair(after.current_combination_pair@, before.breadth())
                    &&& after.drawn() == 1
                    &&& after.current_criterion == before.current_criterion + 1
                    &&& after.rank_mode == RankMode::Alternative
                } else {
                    &&& after.drawn() == 0
                    &&& after.current_criterion == 0
                    &&& after.rank_mode == RankMode::Criterion
                }
            }),
    {
        let all = pairs(places(before.breadth()));
        every_pair_once(before.breadth());
        assert(2 * all.len() == before.breadth() * (before.breadth() - 1));
        assert(all.len() > 0) by (nonlinear_arith)
            requires
                2 * all.len() == before.breadth() * (before.breadth() - 1),
                before.breadth() >= 3,
        ;
    }

    /// While a list is missing or too short, no vote and no weight is ever
    /// sent. A frame of such a view starts no fetch and leaves the slot of
    /// votes and weights as it is, whatever was pressed. Once the lists are
    /// there the frame names the shortage, and as the lists stay as they
    /// are, so it is with every frame that follows.
    pub proof fn shortage_sends_nothing(
        before: RankView,
        input: RankInput,
        base_url: Seq<char>,
        session: Session,
        after: RankView,
        frame: Frame,
    )
        requires
            before.shows(input, base_url, session, after, frame),
            !before.absorbed(input).votable(),
        ensures
            frame.fetches@.len() == 0,
            after.download == before.download,
            !(session.user_info.admin && input.back) ==> after == before.absorbed(input),
            !(session.user_info.admin && input.back) && after.loaded() ==> {
                &&& shown(frame.notes@).last() == StatusView::Label(after.shortage())
                &&& forall|later: RankInput| !(#[trigger] after.absorbed(later)).votable()
            },
    {
    }

    /// One frame of the flow.
    pub fn show(&mut self, input: RankInput, base_url: &str, session: &Session) -> (frame: Frame)
        requires
            old(self).wf(),
        ensures
            final(self).wf(),
            old(self).shows(input, base_url@, *session, *final(self), frame),
    {
        self.run(input, base_url, session)
    }

    /// The frame of [`RankView::show`], clause by clause.
    fn run(&mut self, input: RankInput, base_url: &str, session: &Session) -> (frame: Frame)
        requires
            old(self).wf(),
        ensures
            final(self).wf(),
            session.user_info.admin && input.back ==> {
                &&& *final(self) == *old(self)
                &&& frame.notes@.len() == 0
                &&& frame.fetches@.len() == 0
                &&& frame.next matches Some(navigation)
                &&& navigation.to_list()
            },
            !(session.user_info.admin && input.back) ==> {
                let mid = old(self).absorbed(input);
                &&& frame.next is None
                &&& !mid.loaded() ==> {
                    &&& *final(self) == mid
                    &&& shown(frame.notes@) == mid.list_notes(input).push(StatusView::Spinner)
                    &&& frame.fetches@.len() == 0
                }
                &&& mid.loaded() && mid.short() ==> {
                    &&& *final(self) == mid
                    &&& shown(frame.notes@) == mid.list_notes(input).push(
                        StatusView::Label(mid.shortage()),
                    )
                    &&& frame.fetches@.len() == 0
                }
                &&& mid.votable() && mid.rank_mode == RankMode::Alternative ==> {
                    &&& (shown(frame.notes@), sent(frame.fetches@)) == mid.voting_frame(
                        input,
                        base_url@,
                        *session,
                    )
                    &&& if mid.voted(input.vote).next_combination {
                        mid.voted(input.vote).advanced(*final(self))
                    } else {
                        *final(self) == mid.voted(input.vote)
                    }
                }
                &&& mid.votable() && mid.rank_mode == RankMode::Criterion ==> {
                    &&& (shown(frame.notes@), sent(frame.fetches@)) == mid.weighing_frame(
                        input,
                        base_url@,
                        *session,
                    )
                    &&& *final(self) == mid.weighed(input)
                }
                &&& mid.votable() && mid.rank_mode == RankMode::Finished ==> {
                    &&& *final(self) == mid
                    &&& shown(frame.notes@) == mid.list_notes(input)
                    &&& frame.fetches@.len() == 0
                }
            },
    {
        let mut frame = Frame::quiet();
        if session.user_info.admin && input.back {
            frame.next = Some(
                Navigation {
                    screen: Screen::RankingList(RankingList::default()),
                    fetches: Vec::new(),
                },
            );
            return frame;
        }
        let ghost mid = self.absorbed(input);
        let note = settle_list(
            &mut self.alternatives_list,
            &self.download_alternatives,
            input.alternatives,
        );
        frame.notes.push(note);
        let note = settle_list(&mut self.criteria, &self.download_criteria, input.criteria);
        frame.notes.push(note);
        let note = settle_list(&mut self.scale, &self.download_scale, input.scale);
        frame.notes.push(note);
        proof {
            assert(*self == mid);
            assert(shown(frame.notes@) =~= mid.list_notes(input));
            assert(pairs(places(self.breadth())).skip(0) =~= pairs(places(self.breadth())));
        }
        let (breadth, depth, levels) = match (&self.alternatives_list, &self.criteria, &self.scale) {
            (Some(alternatives), Some(criteria), Some(scale)) => (
                alternatives.len(),
                criteria.len(),
                scale.len(),
            ),
            _ => {
                frame.notes.push(Status::Spinner);
                proof {
                    assert(shown(frame.notes@) =~= mid.list_notes(input).push(StatusView::Spinner));
                }
                return frame;
            },
        };
        if breadth < 3 || depth < 2 || levels < 2 {
            let words = if breadth < 3 {
                counted("There are only ", breadth, " alternatives, nothing to compare :(")
            } else if depth < 2 {
                counted("There are only ", depth, " criteria, nothing to compare:)")
            } else {
                counted("There are only ", levels, " scales, nothing to compare:)")
            };
            frame.notes.push(Status::Label(words));
            proof {
                assert(shown(frame.notes@) =~= mid.list_notes(input).push(
                    StatusView::Label(mid.shortage()),
                ));
            }
            return frame;
        }
        match self.rank_mode {
            RankMode::Alternative => {
                match input.vote {
                    Some(vote) => {
                        if !self.next_combination && self.current_criterion < depth {
                            let url = endpoint(base_url, "/rankAB/", self.ranking.ranking_id);
                            self.post(vote.json, url, session, &mut frame);
                        }
                    },
                    None => {},
                }
                let accepted = self.answer(&mut frame);
                if accepted {
                    self.next_combination = true;
                }
                proof {
                    assert(*self == mid.voted(input.vote));
                    assert(shown(frame.notes@) =~= mid.voting_frame(input, base_url@, *session).0);
                    assert(sent(frame.fetches@) =~= mid.voting_frame(input, base_url@, *session).1);
                }
                if self.next_combination {
                    self.draw();
                }
            },
            RankMode::Criterion => {
                if self.current_criterion < depth {
                    match input.level {
                        Some(level) => {
                            if level < levels {
                                self.scale_ix = level;
                            }
                        },
                        None => {},
                    }
                    match input.submit {
                        Some(json) => {
                            let url = endpoint(base_url, "/weight/", self.ranking.ranking_id);
                            self.post(json, url, session, &mut frame);
                        },
                        None => {},
                    }
                    let accepted = self.answer(&mut frame);
                    if accepted {
                        self.current_criterion = self.current_criterion + 1;
                    }
                    if self.current_criterion >= depth {
                        self.rank_mode = RankMode::Finished;
                    }
                    proof {
                        assert(shown(frame.notes@) =~= mid.weighing_frame(
                            input,
                            base_url@,
                            *session,
                        ).0);
                        assert(sent(frame.fetches@) =~= mid.weighing_frame(
                            input,
                            base_url@,
                            *session,
                        ).1);
                    }
                } else {
                    self.rank_mode = RankMode::Finished;
                }
            },
            RankMode::Finished => {},
        }
        frame
    }
}

} // verus!
