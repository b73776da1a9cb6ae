//! Credentials, the session, and the steps of logging in.

use vstd::prelude::*;
use vstd::utf8::encode_utf8;
use crate::download::Download;
use crate::download::Promise;
use crate::download::Status;
use crate::download::StatusView;
use crate::download::outbound;
use crate::http::Request;
use crate::http::RequestView;
use crate::http::get;
use crate::http::post;
use crate::schema::Expert;
use crate::text::join;
use crate::view::queue;
use crate::view::starting;
use crate::view::Frame;
use crate::view::Slot;
use crate::view::sent;
use crate::view::shown;

verus! {

/// The token that the service issued for a login.
#[derive(Debug, PartialEq, Eq, PartialOrd, Ord)]
pub struct AccessToken {
    acces_token: String,
    token_type: String,
}

impl Clone for AccessToken {
    fn clone(&self) -> (copy: Self)
        ensures
            copy == *self,
    {
        AccessToken {
            acces_token: self.acces_token.clone(),
            token_type: self.token_type.clone(),
        }
    }
}

impl AccessToken {
    /// The token as the service sent it.
    pub closed spec fn token(&self) -> Seq<char> {
        self.acces_token@
    }

    /// The kind of token, such as "Bearer".
    pub closed spec fn kind(&self) -> Seq<char> {
        self.token_type@
    }

    /// The value of the `Authorization` header: kind, a space, token.
    pub open spec fn authorization(&self) -> Seq<char> {
        self.kind() + " "@ + self.token()
    }

    /// The token of the given kind, as the service sent it.
    pub fn new(acces_token: String, token_type: String) -> (token: Self)
        ensures
            token.token() == acces_token@,
            token.kind() == token_type@,
    {
        AccessToken { acces_token, token_type }
    }

    /// The request with the `Authorization` header of this token after the
    /// headers it has.
    pub fn add_authorization_header(&self, request: Request) -> (authorized: Request)
        ensures
            authorized@ == request@.with_header("Authorization"@, self.authorization()),
    {
        let mut value = self.token_type.clone();
        value.append(" ");
        value.append(self.acces_token.as_str());
        request.with_header("Authorization", value)
    }
}

/// Who is logged in, and with which token.
#[derive(Debug, PartialEq, Eq, PartialOrd, Ord)]
pub struct Session {
    pub access_token: AccessToken,
    pub user_info: Expert,
}

impl Session {
    /// The session of `expert` under `access_token`.
    pub fn new(access_token: AccessToken, expert: Expert) -> (session: Self)
        ensures
            session.access_token == access_token,
            session.user_info == expert,
    {
        Session { access_token, user_info: expert }
    }
}

/// How far a login has come.
#[derive(Debug, PartialEq, Eq, PartialOrd, Ord)]
pub enum LoginStep {
    /// No token yet: credentials are to be submitted.
    Authentication,
    /// A token was issued: the profile that belongs to it is being fetched.
    GetUserInfo(AccessToken),
    /// Token and profile are there.
    Finished(Session),
}

/// The login screen.
#[derive(Debug)]
pub struct LoginForm {
    pub email: String,
    pub download: Download,
    /// The message of the fetch that failed last.
    pub error: String,
    pub step: LoginStep,
}

/// What happened since the last frame of a [`LoginForm`].
pub struct LoginInput {
    /// "Login" was pressed.
    pub login: bool,
    /// The token that the text of the response was parsed to, if it could be.
    pub token: Option<AccessToken>,
    /// The profile that the text of the response was parsed to, if it could
    /// be.
    pub expert: Option<Expert>,
}

/// The form that submits the credentials.
pub open spec fn credentials(email: Seq<char>) -> Seq<char> {
    "grant_type=password&username="@ + email + "&password=abc"@
}

/// The request that asks for a token.
pub open spec fn token_request(base_url: Seq<char>, email: Seq<char>) -> RequestView {
    outbound(
        RequestView::post(base_url + "/token"@, encode_utf8(credentials(email))).with_header(
            "Content-Type"@,
            "application/x-www-form-urlencoded"@,
        ),
    )
}

/// The request that asks for the profile behind a token.
pub open spec fn profile_request(base_url: Seq<char>, token: AccessToken) -> RequestView {
    outbound(RequestView::get(base_url + "/me"@).with_header("Authorization"@, token.authorization()))
}

impl Default for LoginForm {
    fn default() -> (form: Self)
        ensures
            form.email@ == "example@example.com"@,
            form.download.promise is None,
            form.error@.len() == 0,
            form.step == LoginStep::Authentication,
    {
        LoginForm {
            email: String::from_str("example@example.com"),
            download: Download::default(),
            error: String::new(),
            step: LoginStep::Authentication,
        }
    }
}

impl LoginForm {
    /// The request that "Login" stands for: the credentials while there is
    /// no token; the profile, under the token that was kept, while the
    /// profile is missing; none once the session is complete.
    pub open spec fn asks(self, base_url: Seq<char>) -> Option<RequestView> {
        match self.step {
            LoginStep::Authentication => Some(token_request(base_url, self.email@)),
            LoginStep::GetUserInfo(token) => Some(profile_request(base_url, token)),
            LoginStep::Finished(_) => None,
        }
    }

    /// The form once "Login" was pressed, if it was: unless the session is
    /// complete the slot waits, for the fetch that it waited for already or
    /// for the one that "Login" started.
    pub open spec fn submitted(self, login: bool) -> LoginForm {
        if login && !(self.step is Finished) {
            LoginForm { download: self.download.asked(), ..self }
        } else {
            self
        }
    }

    /// The form once it has read what its slot holds.
    ///
    /// A failed fetch leaves its message and an idle slot. A successful
    /// response with a text moves the login on where the text could be
    /// parsed: a token leads to the fetch of the profile, a profile
    /// completes the session. Anything else leaves the form as it is.
    pub open spec fn answered(self, input: LoginInput) -> LoginForm {
        match self.download.promise {
            Some(Promise::Ready(Err(message))) => LoginForm {
                error: message,
                download: Download { promise: None, path: self.download.path },
                ..self
            },
            Some(Promise::Ready(Ok(response))) => if response.ok && response.text_of() is Some {
                match self.step {
                    LoginStep::Authentication => match input.token {
                        Some(token) => LoginForm {
                            step: LoginStep::GetUserInfo(token),
                            download: Download {
                                promise: Some(Promise::Pending),
                                path: self.download.path,
                            },
                            ..self
                        },
                        None => self,
                    },
                    LoginStep::GetUserInfo(token) => match input.expert {
                        Some(expert) => LoginForm {
                            step: LoginStep::Finished(
                                Session { access_token: token, user_info: expert },
                            ),
                            ..self
                        },
                        None => self,
                    },
                    LoginStep::Finished(_) => self,
                }
            } else {
                self
            },
            _ => self,
        }
    }

    /// What the form shows for what its slot holds.
    pub open spec fn answer_note(self, input: LoginInput) -> StatusView {
        match self.download.promise {
            None => StatusView::Quiet,
            Some(Promise::Pending) => StatusView::Spinner,
            Some(Promise::Ready(Err(message))) => StatusView::Label(message@),
            Some(Promise::Ready(Ok(response))) => if response.text_of() is None {
                StatusView::Label("Failed request"@)
            } else if self.step is Finished {
                StatusView::Quiet
            } else if !response.ok {
                StatusView::Label("Failed to log in due to: "@ + response.status_text@)
            } else if self.step is Authentication && input.token is Some {
                StatusView::Quiet
            } else if self.step is GetUserInfo && input.expert is Some {
                StatusView::Quiet
            } else {
                StatusView::Label("Failed to deserialze token response"@)
            },
        }
    }

    /// The fetches that a frame starts.
    ///
    /// "Login" starts what it stands for, unless the slot waits for a
    /// fetch: then nothing goes out. Without "Login", a token that has
    /// arrived starts the fetch of the profile.
    pub open spec fn fetches(self, input: LoginInput, base_url: Seq<char>) -> Seq<
        (Slot, RequestView),
    > {
        if input.login {
            if self.download.pending() {
                Seq::empty()
            } else {
                starting(Slot::Action, self.asks(base_url))
            }
        } else if self.step is Authentication && self.download.readable() && input.token is Some {
            seq![(Slot::Action, profile_request(base_url, input.token->0))]
        } else {
            Seq::empty()
        }
    }

    /// A login only moves forward, and only on a successful response with a
    /// text that could be parsed: from the credentials to the profile with
    /// the token that was parsed, from the profile to the session with the
    /// token that was kept and the profile that was parsed. A complete
    /// session stays as it is.
    pub proof fn login_moves_forward(self, input: LoginInput)
        ensures
            ({
                let read = self.submitted(input.login);
                let after = read.answered(input);
                let moved = read.download.readable();
                match self.step {
                    LoginStep::Authentication => if moved && input.token is Some {
                        after.step == LoginStep::GetUserInfo(input.token->0)
                    } else {
                        after.step == self.step
                    },
                    LoginStep::GetUserInfo(token) => if moved && input.expert is Some {
                        after.step == LoginStep::Finished(
                            Session { access_token: token, user_info: input.expert->0 },
                        )
                    } else {
                        after.step == self.step
                    },
                    LoginStep::Finished(_) => after.step == self.step,
                }
            }),
            input.login ==> self.submitted(input.login).answered(input).step == self.step,
    {
    }

    /// A fetch that failed clears the slot, leaves its message, and is not
    /// tried again: as long as "Login" is not pressed, no later frame starts
    /// a fetch.
    pub proof fn failure_waits_for_login(self, input: LoginInput, later: LoginInput, base_url: Seq<char>)
        requires
            !input.login,
            !later.login,
            self.download.failure() is Some,
        ensures
            self.submitted(false).answered(input).download.promise is None,
            self.submitted(false).answered(input).error == self.download.failure()->0,
            self.submitted(false).answered(input).step == self.step,
            self.fetches(input, base_url).len() == 0,
            self.submitted(false).answered(input).fetches(later, base_url).len() == 0,
            self.submitted(false).answered(input).submitted(false).answered(later)
                == self.submitted(false).answered(input),
    {
    }

    /// After a profile that did not come, the login can go on without the
    /// credentials: in the frame that reads the failure the token is kept,
    /// and "Login" then fetches the profile again under that token.
    pub proof fn profile_can_be_retried(self, input: LoginInput, later: LoginInput, base_url: Seq<char>)
        requires
            !input.login,
            later.login,
            self.step is GetUserInfo,
            self.download.promise is Some,
            !self.download.pending(),
            !(self.download.readable() && input.expert is Some),
        ensures
            self.submitted(false).answered(input).step == self.step,
            !self.submitted(false).answered(input).download.pending(),
            self.submitted(false).answered(input).fetches(later, base_url) == seq![
                (Slot::Action, profile_request(base_url, self.step->GetUserInfo_0)),
            ],
            self.submitted(false).answered(input).submitted(true).download.pending(),
            self.submitted(false).answered(input).submitted(true).answered(later).step == self.step,
    {
    }

    /// One frame of the login screen: starts what "Login" stands for if it
    /// was pressed, then reads what the slot holds.
    pub fn show(&mut self, input: LoginInput, base_url: &str) -> (frame: Frame)
        ensures
            *final(self) == old(self).submitted(input.login).answered(input),
            shown(frame.notes@) == seq![old(self).submitted(input.login).answer_note(input)],
            sent(frame.fetches@) == old(self).fetches(input, base_url@),
            frame.next is None,
    {
        let mut frame = Frame::quiet();
        if input.login {
            let request = match &self.step {
                LoginStep::Authentication => {
                    let mut form = join("grant_type=password&username=", self.email.as_str());
                    form.append("&password=abc");
                    Some(
                        post(join(base_url, "/token"), form.as_str().as_bytes_vec()).with_header(
                            "Content-Type",
                            String::from_str("application/x-www-form-urlencoded"),
                        ),
                    )
                },
                LoginStep::GetUserInfo(token) => Some(
                    token.add_authorization_header(get(join(base_url, "/me"))),
                ),
                LoginStep::Finished(_) => None,
            };
            match request {
                Some(request) => {
                    let started = self.download.download(request);
                    queue(&mut frame.fetches, Slot::Action, started);
                },
                None => {},
            }
        }
        let ghost mid = *self;
        assert(mid == old(self).submitted(input.login));
        let note = match self.download.promise.take() {
            None => Status::Quiet,
            Some(Promise::Pending) => {
                self.download.promise = Some(Promise::Pending);
                Status::Spinner
            },
            Some(Promise::Ready(Err(message))) => {
                let note = Status::Label(message.clone());
                self.error = message;
                note
            },
            Some(Promise::Ready(Ok(response))) => {
                let mut step = LoginStep::Authentication;
                std::mem::swap(&mut self.step, &mut step);
                let note = if response.text().is_none() {
                    self.step = step;
                    Status::Label(String::from_str("Failed request"))
                } else {
                    match step {
                        LoginStep::Finished(session) => {
                            self.step = LoginStep::Finished(session);
                            Status::Quiet
                        },
                        LoginStep::Authentication => {
                            if !response.ok {
                                Status::Label(
                                    join(
                                        "Failed to log in due to: ",
                                        response.status_text.as_str(),
                                    ),
                                )
                            } else {
                                match input.token {
                                    Some(token) => {
                                        let request = get(join(base_url, "/me"));
                                        let request = token.add_authorization_header(request);
                                        self.step = LoginStep::GetUserInfo(token);
                                        let started = self.download.download(request);
                                        queue(&mut frame.fetches, Slot::Action, started);
                                        proof {
                                            assert(*self == mid.answered(input));
                                            assert(sent(frame.fetches@) =~= old(self).fetches(
                                                input,
                                                base_url@,
                                            ));
                                        }
                                        frame.notes.push(Status::Quiet);
                                        proof {
                                            assert(shown(frame.notes@) =~= seq![
                                                mid.answer_note(input),
                                            ]);
                                        }
                                        return frame;
                                    },
                                    None => Status::Label(
                                        String::from_str("Failed to deserialze token response"),
                                    ),
                                }
                            }
                        },
                        LoginStep::GetUserInfo(token) => {
                            if !response.ok {
                                self.step = LoginStep::GetUserInfo(token);
                                Status::Label(
                                    join(
                                        "Failed to log in due to: ",
                                        response.status_text.as_str(),
                                    ),
                                )
                            } else {
                                match input.expert {
                                    Some(expert) => {
                                        self.step = LoginStep::Finished(Session::new(token, expert));
                                        Status::Quiet
                                    },
                                    None => {
                                        self.step = LoginStep::GetUserInfo(token);
                                        Status::Label(
                                            String::from_str("Failed to deserialze token response"),
                                        )
                                    },
                                }
                            }
                        },
                    }
                };
                self.download.promise = Some(Promise::Ready(Ok(response)));
                note
            },
        };
        frame.notes.push(note);
        proof {
            assert(shown(frame.notes@) =~= seq![mid.answer_note(input)]);
            assert(sent(frame.fetches@) =~= old(self).fetches(input, base_url@));
        }
        frame
    }
}

} // verus!
