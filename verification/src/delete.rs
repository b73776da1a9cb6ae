//! The question whether to delete a ranking.

use vstd::prelude::*;
use crate::download::Download;
use crate::download::Promise;
use crate::download::StatusView;
use crate::download::outbound;
use crate::http::RequestView;
use crate::http::get;
use crate::login::Session;
use crate::ranking_list::open_list;
use crate::schema::Ranking;
use crate::submit::read_verdict;
use crate::submit::verdict;
use crate::text::address;
use crate::text::endpoint;
use crate::text::join;
use crate::view::queue;
use crate::view::Frame;
use crate::view::Slot;
use crate::view::sent;
use crate::view::shown;

verus! {

/// What happened since the last frame of a [`DeleteRanking`].
pub struct DeleteInput {
    /// "Yes, delete" was pressed.
    pub yes: bool,
    /// "No, go back" was pressed.
    pub no: bool,
}

/// The question whether to delete a ranking.
pub struct DeleteRanking {
    pub ranking: Ranking,
    pub download: Download,
}

/// The request that deletes a ranking: an authorized `DELETE` of its
/// address, which otherwise has the shape of a `GET`.
pub open spec fn delete_request(base_url: Seq<char>, ranking_id: int, session: Session) -> RequestView {
    outbound(
        RequestView::get(address(base_url, "/ranking/"@, ranking_id)).with_method(
            "DELETE"@,
        ).with_header("Authorization"@, session.access_token.authorization()),
    )
}

impl DeleteRanking {
    /// Whether nothing has happened on the screen, which is one for
    /// `ranking`.
    pub open spec fn fresh(self, ranking: Ranking) -> bool {
        &&& self.ranking.same_record(ranking)
        &&& self.ranking.download.promise is None
        &&& self.download.promise is None
    }

    /// The question whether to delete `ranking`, before any answer.
    pub fn new(ranking: Ranking) -> (question: Self)
        ensures
            question.ranking == ranking,
            question.download.promise is None,
    {
        DeleteRanking { ranking, download: Download::default() }
    }

    /// The question as it is put.
    pub fn prompt(&self) -> (words: String)
        ensures
            words@ == "Are you sure you want to delete ranking '"@ + self.ranking.description@
                + "'?"@,
    {
        let mut words = join(
            "Are you sure you want to delete ranking '",
            self.ranking.description.as_str(),
        );
        words.append("'?");
        words
    }

    /// The slot once "Yes" was pressed, if it was: it waits, for the
    /// deletion that was on its way already or for the one that was
    /// started.
    pub open spec fn confirmed(self, yes: bool) -> Download {
        if yes {
            Download { promise: Some(Promise::Pending), path: self.download.path }
        } else {
            self.download
        }
    }

    /// Whether `after` and `frame` are what one frame on `input` makes of
    /// the question and asks of its surroundings.
    ///
    /// "Yes" starts the deletion, unless one is on its way. "No" leads to
    /// the list of rankings, and so does the answer of the service once it
    /// has deleted the ranking.
    pub open spec fn shows(
        self,
        input: DeleteInput,
        base_url: Seq<char>,
        session: Session,
        after: DeleteRanking,
        frame: Frame,
    ) -> bool {
        &&& after.ranking == self.ranking
        &&& after.download == self.confirmed(input.yes)
        &&& shown(frame.notes@) == seq![
            verdict(after.download, StatusView::Label("Success"@), "Unknown error"@),
        ]
        &&& sent(frame.fetches@) == (if input.yes && !self.download.pending() {
            seq![(Slot::Action, delete_request(base_url, self.ranking.ranking_id as int, session))]
        } else {
            Seq::empty()
        })
        &&& if input.no || after.download.succeeded() {
            frame.next matches Some(navigation) && navigation.to_list()
        } else {
            frame.next is None
        }
    }

    /// One frame of the question.
    pub fn show(&mut self, input: DeleteInput, base_url: &str, session: &Session) -> (frame: Frame)
        ensures
            old(self).shows(input, base_url@, *session, *final(self), frame),
    {
        let mut frame = Frame::quiet();
        if input.yes {
            let url = endpoint(base_url, "/ranking/", self.ranking.ranking_id);
            let request = get(url).with_method("DELETE");
            let request = session.access_token.add_authorization_header(request);
            let started = self.download.download(request);
            queue(&mut frame.fetches, Slot::Action, started);
        }
        if input.no {
            frame.next = Some(open_list());
        }
        let (accepted, note) = read_verdict(&self.download, Some("Success"), "Unknown error");
        frame.notes.push(note);
        if accepted {
            frame.next = Some(open_list());
        }
        proof {
            assert(shown(frame.notes@) =~= seq![
                verdict(self.download, StatusView::Label("Success"@), "Unknown error"@),
            ]);
            if input.yes && !old(self).download.pending() {
                assert(sent(frame.fetches@) =~= seq![
                    (
                        Slot::Action,
                        delete_request(base_url@, old(self).ranking.ranking_id as int, *session),
                    ),
                ]);
            } else {
                assert(sent(frame.fetches@) =~= Seq::empty());
            }
        }
        frame
    }
}

} // verus!
