//! The list of rankings, from which every other screen is reached.

use vstd::prelude::*;
use crate::delete::DeleteRanking;
use crate::edit::open_edit;
use crate::forms::NewRanking;
use crate::http::RequestView;
use crate::http::get;
use crate::login::Session;
use crate::moment::expiry;
use crate::moment::expiry_of;
use crate::moment::moment_text;
use crate::rank::RankView;
use crate::schema::Ranking;
use crate::text::decimal;
use crate::text::join;
use crate::text::push_decimal;
use crate::text::push_signed_decimal;
use crate::text::signed_decimal;
use crate::view::Frame;
use crate::view::Navigation;
use crate::view::Screen;

verus! {

/// The change of screen that opens an empty list of rankings.
pub(crate) fn open_list() -> (navigation: Navigation)
    ensures
        navigation.to_list(),
{
    Navigation { screen: Screen::RankingList(RankingList::default()), fetches: Vec::new() }
}

/// The button of the list of rankings that was pressed.
#[derive(Debug, Clone, Copy, PartialEq, Eq, Structural)]
pub enum ListChoice {
    /// "Create new ranking". Only administrators are offered it.
    Create,
    /// The ranking at this place was chosen, to vote on it.
    Open(usize),
    /// "Delete" at this place. Only administrators are offered it.
    Delete(usize),
    /// "Edit" at this place. Only administrators are offered it.
    Edit(usize),
}

/// What the list of rankings shows of one ranking.
#[derive(Debug, PartialEq, Eq)]
pub struct Row {
    pub description: String,
    /// When the ranking closes, where the calendar reaches that far.
    pub expiring: Option<String>,
    /// The identifier of the ranking. Only administrators are shown it.
    pub id: Option<String>,
}

/// The rankings that the logged-in expert can see.
pub struct RankingList {
    pub ranking_list: Vec<Ranking>,
}

impl Default for RankingList {
    fn default() -> (list: Self)
        ensures
            list.ranking_list@.len() == 0,
    {
        RankingList { ranking_list: Vec::new() }
    }
}

/// The address at which an expert reads the rankings: an administrator all
/// of them, anyone else those they take part in.
pub open spec fn rankings_address(base_url: Seq<char>, session: Session) -> Seq<char> {
    if session.user_info.admin {
        base_url + "/all_rankings"@
    } else {
        base_url + "/rankings/"@ + decimal(session.user_info.expert_id as nat)
    }
}

/// The request that reads the rankings. The header for other origins is
/// left to the slot that sends it.
pub open spec fn rankings_request(base_url: Seq<char>, session: Session) -> RequestView {
    RequestView::get(rankings_address(base_url, session)).with_header(
        "Authorization"@,
        session.access_token.authorization(),
    )
}

impl RankingList {
    /// Whether `row` is what the list shows of `ranking`.
    pub open spec fn row_of(ranking: Ranking, admin: bool, row: Row) -> bool {
        &&& row.description@ == ranking.description@
        &&& match expiry_of(moment_text(ranking.expiring as int)) {
            Some(expected) => row.expiring matches Some(label) && label@ == expected,
            None => row.expiring is None,
        }
        &&& if admin {
            row.id matches Some(label) && label@ == "Id: "@ + signed_decimal(
                ranking.ranking_id as int,
            )
        } else {
            row.id is None
        }
    }

    /// What the list shows: one row for each ranking, in their order.
    pub fn rows(&self, session: &Session) -> (rows: Vec<Row>)
        ensures
            rows@.len() == self.ranking_list@.len(),
            forall|i: int|
                0 <= i < rows@.len() ==> Self::row_of(
                    #[trigger] self.ranking_list@[i],
                    session.user_info.admin,
                    rows@[i],
                ),
    {
        let mut rows: Vec<Row> = Vec::new();
        let mut i: usize = 0;
        while i < self.ranking_list.len()
            invariant
                i <= self.ranking_list@.len(),
                rows@.len() == i,
                forall|k: int|
                    0 <= k < i ==> Self::row_of(
                        #[trigger] self.ranking_list@[k],
                        session.user_info.admin,
                        rows@[k],
                    ),
            decreases self.ranking_list@.len() - i,
        {
            let ranking = &self.ranking_list[i];
            let id = if session.user_info.admin {
                let mut label = String::from_str("Id: ");
                push_signed_decimal(&mut label, ranking.ranking_id);
                Some(label)
            } else {
                None
            };
            rows.push(
                Row {
                    description: ranking.description.clone(),
                    expiring: expiry(ranking.expiring),
                    id,
                },
            );
            i = i + 1;
        }
        rows
    }

    /// The request that fills the list.
    pub fn get_request(&self, base_url: &str, session: &Session) -> (request: Option<
        crate::http::Request,
    >)
        ensures
            request matches Some(request) && request@ == rankings_request(base_url@, *session),
    {
        let url = if session.user_info.admin {
            join(base_url, "/all_rankings")
        } else {
            let mut url = join(base_url, "/rankings/");
            push_decimal(&mut url, session.user_info.expert_id);
            url
        };
        Some(session.access_token.add_authorization_header(get(url)))
    }

    /// Takes over the rankings that the response was parsed to. A response
    /// that could not be parsed leaves the list as it is.
    pub fn populate_from_json(&mut self, parsed: Result<Vec<Ranking>, String>)
        ensures
            final(self).ranking_list == (match parsed {
                Ok(list) => list,
                Err(_) => old(self).ranking_list,
            }),
    {
        match parsed {
            Ok(list) => {
                self.ranking_list = list;
            },
            Err(_) => {},
        }
    }

    /// Whether `navigation` is where `choice` leads.
    pub open spec fn chosen(
        self,
        choice: ListChoice,
        base_url: Seq<char>,
        session: Session,
        navigation: Option<Navigation>,
    ) -> bool {
        let rankings = self.ranking_list@;
        let admin = session.user_info.admin;
        match choice {
            ListChoice::Create => if admin {
                navigation matches Some(navigation) && navigation.to_new_ranking()
            } else {
                navigation is None
            },
            ListChoice::Open(place) => if place < rankings.len() {
                navigation matches Some(navigation) && navigation.to_rank(
                    rankings[place as int],
                    base_url,
                    session,
                )
            } else {
                navigation is None
            },
            ListChoice::Delete(place) => if admin && place < rankings.len() {
                navigation matches Some(navigation) && navigation.to_delete(rankings[place as int])
            } else {
                navigation is None
            },
            ListChoice::Edit(place) => if admin && place < rankings.len() {
                navigation matches Some(navigation) && navigation.to_edit(
                    rankings[place as int],
                    base_url,
                    session,
                )
            } else {
                navigation is None
            },
        }
    }

    /// Whether `frame` is what one frame of the list asks of its
    /// surroundings: it follows the button that was pressed, if it is one
    /// that the expert is offered.
    pub open spec fn shows(
        self,
        choice: Option<ListChoice>,
        base_url: Seq<char>,
        session: Session,
        frame: Frame,
    ) -> bool {
        &&& frame.notes@.len() == 0
        &&& frame.fetches@.len() == 0
        &&& match choice {
            Some(choice) => self.chosen(choice, base_url, session, frame.next),
            None => frame.next is None,
        }
    }

    /// One frame of the list.
    pub fn show(&self, choice: Option<ListChoice>, base_url: &str, session: &Session) -> (frame:
        Frame)
        ensures
            self.shows(choice, base_url@, *session, frame),
    {
        let mut frame = Frame::quiet();
        let admin = session.user_info.admin;
        match choice {
            Some(ListChoice::Create) => {
                if admin {
                    frame.next = Some(
                        Navigation {
                            screen: Screen::NewRanking(NewRanking::default()),
                            fetches: Vec::new(),
                        },
                    );
                }
            },
            Some(ListChoice::Open(place)) => {
                if place < self.ranking_list.len() {
                    let (view, fetches) = RankView::new(&self.ranking_list[place], base_url, session);
                    frame.next = Some(Navigation { screen: Screen::Rank(view), fetches });
                }
            },
            Some(ListChoice::Delete(place)) => {
                if admin && place < self.ranking_list.len() {
                    let question = DeleteRanking::new(self.ranking_list[place].clone());
                    frame.next = Some(
                        Navigation { screen: Screen::DeleteRanking(question), fetches: Vec::new() },
                    );
                }
            },
            Some(ListChoice::Edit(place)) => {
                if admin && place < self.ranking_list.len() {
                    frame.next = Some(open_edit(&self.ranking_list[place], session, base_url));
                }
            },
            None => {},
        }
        frame
    }
}

} // verus!
