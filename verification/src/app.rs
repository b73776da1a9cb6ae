//! The client as a whole: the login screen until someone is logged in, the
//! controller of the screens from then on.

use vstd::prelude::*;
use crate::data::Data;
use crate::data::DataInput;
use crate::data::Turn;
use crate::ticket::slots_of;
use crate::http::Response;
use crate::login::LoginForm;
use crate::login::LoginInput;
use crate::login::LoginStep;
use crate::login::Session;
use crate::view::Slot;
use crate::view::sent;
use crate::view::shown;

verus! {

/// What happened since the last frame of the client.
pub struct AppInput {
    /// What happened on the login screen.
    pub login: LoginInput,
    /// What happened around the controller.
    pub data: DataInput,
}

/// The client.
pub struct TemplateApp {
    pub data: Data,
    pub login_form: LoginForm,
}

impl Default for TemplateApp {
    fn default() -> (app: Self)
        ensures
            app.wf(),
            app.session() is None,
            app.login_form.step == LoginStep::Authentication,
            app.login_form.download.promise is None,
            app.data.download.promise is None,
    {
        TemplateApp { data: Data::default(), login_form: LoginForm::default() }
    }
}

impl TemplateApp {
    /// The invariant of the client: that of its controller.
    pub open spec fn wf(self) -> bool {
        self.data.wf()
    }

    /// The session, once the login is complete.
    pub open spec fn session(self) -> Option<Session> {
        match self.login_form.step {
            LoginStep::Finished(session) => Some(session),
            _ => None,
        }
    }

    /// The words before the address of the user at the top of the window.
    pub open spec fn greeting_of(self) -> Option<Seq<char>> {
        match self.session() {
            Some(session) => if session.user_info.admin {
                Some("Logged in as admin: "@)
            } else {
                Some("Logged in as: "@)
            },
            None => None,
        }
    }

    /// The words before the address of the user at the top of the window,
    /// once someone is logged in.
    pub fn greeting(&self) -> (words: Option<String>)
        ensures
            match self.greeting_of() {
                Some(expected) => words matches Some(words) && words@ == expected,
                None => words is None,
            },
    {
        match &self.login_form.step {
            LoginStep::Finished(session) => {
                if session.user_info.admin {
                    Some(String::from_str("Logged in as admin: "))
                } else {
                    Some(String::from_str("Logged in as: "))
                }
            },
            _ => None,
        }
    }

    /// One frame of the client: of the controller once the login is
    /// complete, of the login screen until then. The frame of the login
    /// screen stands where that of the controller would: it has no screen
    /// beside it and changes none. Either way every fetch that leaves gets
    /// the next number.
    pub fn update(&mut self, input: AppInput) -> (turn: Turn)
        requires
            old(self).wf(),
        ensures
            final(self).wf(),
            turn.numbers@ == old(self).data.tickets.numbers(turn.leaving()),
            match old(self).session() {
                Some(session) => {
                    &&& final(self).login_form == old(self).login_form
                    &&& shown(turn.notes@) == old(self).data.notes(input.data, session)
                    &&& sent(turn.fetches@) == old(self).data.fetches(input.data, session)
                    &&& old(self).data.pumped(input.data, session).current_view.framed(
                        input.data.screen,
                        old(self).data.base_url@,
                        session,
                        turn.screen_after(final(self).data.current_view),
                        turn.frame_of(final(self).data.current_view),
                    )
                    &&& final(self).data == old(self).data.shown_with(
                        input.data,
                        session,
                        final(self).data.current_view,
                        turn.turned is Some,
                        turn.tickets_after(old(self).data.tickets),
                    )
                },
                None => {
                    &&& final(self).data == (Data {
                        tickets: turn.tickets_after(old(self).data.tickets),
                        ..old(self).data
                    })
                    &&& final(self).login_form == old(self).login_form.submitted(
                        input.login.login,
                    ).answered(input.login)
                    &&& shown(turn.notes@) == seq![
                        old(self).login_form.submitted(input.login.login).answer_note(input.login),
                    ]
                    &&& sent(turn.fetches@) == old(self).login_form.fetches(
                        input.login,
                        old(self).data.base_url@,
                    )
                    &&& turn.screen_notes@.len() == 0
                    &&& turn.screen_fetches@.len() == 0
                    &&& turn.turned is None
                },
            },
    {
        match &self.login_form.step {
            LoginStep::Finished(session) => self.data.show(input.data, session),
            _ => {
                let frame = self.login_form.show(input.login, self.data.base_url.as_str());
                let mut numbers: Vec<u64> = Vec::new();
                self.data.tickets.issue_all(&frame.fetches, &mut numbers);
                let turn = Turn {
                    notes: frame.notes,
                    fetches: frame.fetches,
                    screen_notes: Vec::new(),
                    screen_fetches: Vec::new(),
                    turned: None,
                    numbers,
                };
                proof {
                    assert(slots_of(turn.screen_fetches@) =~= Seq::<Slot>::empty());
                    assert(turn.numbers@ =~= old(self).data.tickets.numbers(turn.leaving()));
                }
                turn
            },
        }
    }

    /// Whether `after` is the client once `outcome` was reported for `slot`
    /// under `number`.
    ///
    /// Once the login is complete the outcome is the controller's. Until
    /// then it is taken by the slot of the login screen, if that is the
    /// slot that is named and it awaits this number; an outcome that is not
    /// awaited changes nothing.
    pub open spec fn resolved(
        self,
        slot: Slot,
        number: u64,
        outcome: Result<Response, String>,
        after: TemplateApp,
    ) -> bool {
        if self.session() is Some {
            &&& after.login_form == self.login_form
            &&& self.data.resolved(slot, number, outcome, after.data)
        } else if slot == Slot::Action && self.data.tickets.awaited(slot) == Some(number) {
            &&& after.data == (Data { tickets: self.data.tickets.with(slot, None), ..self.data })
            &&& after.login_form.download.resolved_from(self.login_form.download, outcome)
            &&& after.login_form == (LoginForm {
                download: after.login_form.download,
                ..self.login_form
            })
        } else {
            after == self
        }
    }

    /// Records the outcome of the fetch that left for `slot` under
    /// `number`, if that is the fetch that the slot awaits.
    pub fn resolve(&mut self, slot: Slot, number: u64, outcome: Result<Response, String>)
        requires
            old(self).wf(),
        ensures
            final(self).wf(),
            old(self).resolved(slot, number, outcome, *final(self)),
    {
        match &self.login_form.step {
            LoginStep::Finished(_) => self.data.resolve(slot, number, outcome),
            _ => {
                if slot == Slot::Action {
                    if self.data.tickets.redeem(slot, number) {
                        self.login_form.download.resolve(outcome);
                    }
                }
            },
        }
    }
}

} // verus!
