use ranking_client::app::AppInput;
use ranking_client::app::TemplateApp;
use ranking_client::data::Data;
use ranking_client::data::DataInput;
use ranking_client::download::Promise;
use ranking_client::download::Status;
use ranking_client::http::Request;
use ranking_client::http::Response;
use ranking_client::login::AccessToken;
use ranking_client::login::LoginInput;
use ranking_client::login::LoginStep;
use ranking_client::login::Session;
use ranking_client::delete::DeleteInput;
use ranking_client::delete::DeleteRanking;
use ranking_client::submit::FormInput;
use ranking_client::ranking_list::ListChoice;
use ranking_client::forms::NewRanking;
use ranking_client::schema::Expert;
use ranking_client::schema::Ranking;
use ranking_client::view::Fetch;
use ranking_client::view::Screen;
use ranking_client::view::ScreenInput;
use ranking_client::view::Slot;

fn header(name: &str, value: &str) -> (String, String) {
    (name.to_string(), value.to_string())
}

fn session(expert_id: u64, admin: bool) -> Session {
    Session::new(
        AccessToken::new("T".to_string(), "Bearer".to_string()),
        Expert { expert_id, name: "Ada".to_string(), email: "a@b.com".to_string(), admin },
    )
}

fn ranking(id: i64) -> Ranking {
    let mut ranking = Ranking::default();
    ranking.ranking_id = id;
    ranking
}

fn ok(text: &str) -> Response {
    Response { ok: true, status: 200, status_text: "OK".to_string(), bytes: text.as_bytes().to_vec() }
}

/// The number of the fetch that `slot` awaits.
fn number(data: &Data, slot: Slot) -> u64 {
    let awaited = match slot {
        Slot::Page => data.tickets.page,
        Slot::Action => data.tickets.action,
        Slot::Info => data.tickets.info,
        Slot::Variables => data.tickets.variables,
        Slot::Alternatives => data.tickets.alternatives,
        Slot::Experts => data.tickets.experts,
        Slot::Criteria => data.tickets.criteria,
        Slot::Scale => data.tickets.scale,
    };
    awaited.expect("the slot awaits a fetch")
}

fn idle() -> DataInput {
    DataInput { reload: false, page: None, screen: ScreenInput::List(None) }
}

fn reload() -> DataInput {
    DataInput { reload: true, page: None, screen: ScreenInput::List(None) }
}

fn page_request(url: &str) -> Request {
    Request {
        method: "GET".to_string(),
        url: url.to_string(),
        body: vec![],
        headers: vec![
            header("Accept", "*/*"),
            header("Authorization", "Bearer T"),
            header("Access-Control-Allow-Origin", "*"),
        ],
    }
}

fn is_list(screen: &Screen, ids: &[i64]) -> bool {
    match screen {
        Screen::RankingList(list) => {
            list.ranking_list.iter().map(|r| r.ranking_id).collect::<Vec<_>>() == ids
        },
        _ => false,
    }
}

#[test]
fn the_controller_starts_with_an_empty_list_of_the_local_service() {
    let data = Data::default();
    assert_eq!(data.base_url, "http://127.0.0.1:8000");
    assert_eq!(data.download.promise, None);
    assert!(!data.parsed);
    assert_eq!(data.failure, None);
    assert!(is_list(&data.current_view, &[]));
}

#[test]
fn the_list_of_an_expert_is_fetched_from_their_rankings() {
    let mut data = Data::default();
    let turn = data.show(idle(), &session(7, false));
    assert_eq!(
        turn.fetches,
        vec![Fetch { slot: Slot::Page, request: page_request("http://127.0.0.1:8000/rankings/7") }]
    );
    assert_eq!(turn.notes, vec![Status::Spinner]);
    assert_eq!(data.download.promise, Some(Promise::Pending));
}

#[test]
fn the_list_of_an_administrator_is_fetched_from_all_rankings() {
    let mut data = Data::default();
    let turn = data.show(idle(), &session(7, true));
    assert_eq!(
        turn.fetches,
        vec![Fetch { slot: Slot::Page, request: page_request("http://127.0.0.1:8000/all_rankings") }]
    );
}

#[test]
fn no_second_fetch_while_the_first_is_on_its_way() {
    let mut data = Data::default();
    let turn = data.show(idle(), &session(7, false));
    assert_eq!(turn.fetches.len(), 1);
    for _ in 0..50 {
        let turn = data.show(idle(), &session(7, false));
        assert!(turn.fetches.is_empty());
        assert_eq!(turn.notes, vec![Status::Spinner]);
        assert_eq!(data.download.promise, Some(Promise::Pending));
        assert!(!data.parsed);
    }
}

#[test]
fn the_screen_is_filled_once_the_response_is_there() {
    let mut data = Data::default();
    data.show(idle(), &session(7, false));
    data.resolve(Slot::Page, number(&data, Slot::Page), Ok(ok("[..]")));
    let turn = data.show(
        DataInput {
            reload: false,
            page: Some(Ok(vec![ranking(3), ranking(4)])),
            screen: ScreenInput::List(None),
        },
        &session(7, false),
    );
    assert!(turn.fetches.is_empty());
    assert_eq!(turn.notes, vec![Status::Quiet]);
    assert!(data.parsed);
    assert!(is_list(&data.current_view, &[3, 4]));
    for _ in 0..5 {
        let turn = data.show(
            DataInput { reload: false, page: Some(Ok(vec![])), screen: ScreenInput::List(None) },
            &session(7, false),
        );
        assert!(turn.fetches.is_empty());
        assert!(turn.notes.is_empty());
        assert!(is_list(&data.current_view, &[3, 4]));
    }
}

#[test]
fn a_response_that_cannot_be_parsed_is_shown_and_leaves_the_screen_as_it_is() {
    let mut data = Data::default();
    data.show(idle(), &session(7, false));
    data.resolve(Slot::Page, number(&data, Slot::Page), Ok(ok("[..]")));
    data.show(
        DataInput {
            reload: false,
            page: Some(Ok(vec![ranking(3), ranking(4)])),
            screen: ScreenInput::List(None),
        },
        &session(7, false),
    );
    data.show(reload(), &session(7, false));
    data.resolve(Slot::Page, number(&data, Slot::Page), Ok(ok("<html>")));
    for _ in 0..3 {
        let turn = data.show(
            DataInput {
                reload: false,
                page: Some(Err("expected value at line 1 column 1".to_string())),
                screen: ScreenInput::List(None),
            },
            &session(7, false),
        );
        assert_eq!(
            turn.notes,
            vec![Status::Label(
                "Failed to parse response due to: expected value at line 1 column 1".to_string()
            )]
        );
        assert!(turn.fetches.is_empty());
        assert!(!data.parsed);
        assert_eq!(data.download.promise, Some(Promise::Ready(Ok(ok("<html>")))));
        assert!(is_list(&data.current_view, &[3, 4]));
    }
    assert_eq!(data.show(reload(), &session(7, false)).fetches.len(), 1);
}

#[test]
fn a_response_that_the_service_refused_is_shown_and_leaves_the_screen_as_it_is() {
    let mut data = Data::default();
    data.show(idle(), &session(7, false));
    data.resolve(Slot::Page, number(&data, Slot::Page),
        Ok(Response {
            ok: false,
            status: 403,
            status_text: "Forbidden".to_string(),
            bytes: b"[{\"description\":\"x\",\"ranking_id\":1,\"expiring\":0}]".to_vec(),
        }),
    );
    for _ in 0..3 {
        let turn = data.show(
            DataInput {
                reload: false,
                page: Some(Ok(vec![ranking(1)])),
                screen: ScreenInput::List(None),
            },
            &session(7, false),
        );
        assert_eq!(turn.notes, vec![Status::Label("Server responded with Forbidden".to_string())]);
        assert!(turn.fetches.is_empty());
        assert!(!data.parsed);
        assert!(is_list(&data.current_view, &[]));
    }
    let turn = data.show(reload(), &session(7, false));
    assert_eq!(turn.fetches.len(), 1);
    assert_eq!(turn.notes, vec![Status::Spinner]);
}

#[test]
fn a_response_that_was_not_parsed_yet_shows_nothing_and_fills_nothing() {
    let mut data = Data::default();
    data.show(idle(), &session(7, false));
    data.resolve(Slot::Page, number(&data, Slot::Page), Ok(ok("[]")));
    let turn = data.show(idle(), &session(7, false));
    assert_eq!(turn.notes, vec![Status::Quiet]);
    assert!(turn.fetches.is_empty());
    assert!(!data.parsed);
    let turn = data.show(
        DataInput { reload: false, page: Some(Ok(vec![ranking(5)])), screen: ScreenInput::List(None) },
        &session(7, false),
    );
    assert_eq!(turn.notes, vec![Status::Quiet]);
    assert!(data.parsed);
    assert!(is_list(&data.current_view, &[5]));
}

#[test]
fn a_response_without_text_stalls_until_a_reload() {
    let mut data = Data::default();
    data.show(idle(), &session(7, false));
    data.resolve(Slot::Page, number(&data, Slot::Page),
        Ok(Response { ok: true, status: 200, status_text: "OK".to_string(), bytes: vec![0xff, 0xfe] }),
    );
    for _ in 0..3 {
        let turn = data.show(idle(), &session(7, false));
        assert_eq!(turn.notes, vec![Status::Label("Empty response from server".to_string())]);
        assert!(turn.fetches.is_empty());
        assert!(!data.parsed);
    }
    assert_eq!(data.show(reload(), &session(7, false)).fetches.len(), 1);
}

#[test]
fn a_failed_fetch_is_not_tried_again_until_a_reload() {
    let mut data = Data::default();
    data.show(idle(), &session(7, false));
    data.resolve(Slot::Page, number(&data, Slot::Page), Err("connection refused".to_string()));
    let turn = data.show(idle(), &session(7, false));
    assert_eq!(turn.notes, vec![Status::Label("connection refused".to_string())]);
    assert!(turn.fetches.is_empty());
    assert_eq!(data.download.promise, None);
    assert_eq!(data.failure, Some("connection refused".to_string()));
    for _ in 0..50 {
        let turn = data.show(idle(), &session(7, false));
        assert!(turn.fetches.is_empty());
        assert_eq!(turn.notes, vec![Status::Label("connection refused".to_string())]);
        assert_eq!(data.download.promise, None);
    }
    let turn = data.show(reload(), &session(7, false));
    assert_eq!(
        turn.fetches,
        vec![Fetch { slot: Slot::Page, request: page_request("http://127.0.0.1:8000/rankings/7") }]
    );
    assert_eq!(turn.notes, vec![Status::Spinner]);
    assert_eq!(data.failure, None);
    assert_eq!(data.download.promise, Some(Promise::Pending));
}

#[test]
fn a_reload_fetches_the_list_again() {
    let mut data = Data::default();
    data.show(idle(), &session(7, false));
    data.resolve(Slot::Page, number(&data, Slot::Page), Ok(ok("[]")));
    data.show(
        DataInput { reload: false, page: Some(Ok(vec![ranking(1)])), screen: ScreenInput::List(None) },
        &session(7, false),
    );
    let turn = data.show(reload(), &session(7, false));
    assert_eq!(turn.fetches.len(), 1);
    assert!(!data.parsed);
    assert_eq!(data.download.promise, Some(Promise::Pending));
    assert!(is_list(&data.current_view, &[1]));
}

#[test]
fn a_screen_that_is_filled_from_nothing_is_ready_at_once() {
    let mut data = Data::default();
    data.navigate(Screen::NewRanking(NewRanking::default()));
    let turn = data.show(
        DataInput {
            reload: false,
            page: None,
            screen: ScreenInput::Form(FormInput { back: false, submit: None }),
        },
        &session(1, true),
    );
    assert!(turn.fetches.is_empty());
    assert!(turn.notes.is_empty());
    assert!(data.parsed);
    assert_eq!(data.download.promise, None);
    assert_eq!(turn.screen_notes, vec![Status::Label(String::new()), Status::Quiet]);
}

#[test]
fn the_screen_has_its_frame_whether_or_not_it_is_filled() {
    let mut data = Data::default();
    let turn = data.show(
        DataInput { reload: false, page: None, screen: ScreenInput::List(Some(ListChoice::Create)) },
        &session(1, true),
    );
    assert!(!turn.fetches.is_empty());
    match turn.turned {
        Some(departure) => {
            assert!(is_list(&departure.left, &[]));
            assert!(departure.fetches.is_empty());
        },
        None => panic!("expected a change of screen"),
    }
    assert!(matches!(data.current_view, Screen::NewRanking(_)));
    assert_eq!(data.download.promise, None);
    assert!(!data.parsed);
}

#[test]
fn a_change_of_screen_drops_what_was_in_flight() {
    let mut data = Data::default();
    data.show(idle(), &session(1, true));
    data.resolve(Slot::Page, number(&data, Slot::Page), Ok(ok("[]")));
    data.show(
        DataInput {
            reload: false,
            page: Some(Ok(vec![ranking(9), ranking(10)])),
            screen: ScreenInput::List(None),
        },
        &session(1, true),
    );
    let turn = data.show(
        DataInput { reload: false, page: None, screen: ScreenInput::List(Some(ListChoice::Edit(1))) },
        &session(1, true),
    );
    let departure = turn.turned.expect("a change of screen");
    assert!(is_list(&departure.left, &[9, 10]));
    assert_eq!(departure.fetches.len(), 5);
    assert_eq!(departure.fetches[0].request.url, "http://127.0.0.1:8000/variables/10");
    assert!(matches!(data.current_view, Screen::EditRanking(_)));
    assert_eq!(data.download.promise, None);
    assert!(!data.parsed);
    assert_eq!(turn.numbers, vec![2, 3, 4, 5, 6]);

    data.resolve(Slot::Page, 1, Ok(ok("stale")));
    assert_eq!(data.download.promise, None);
}

#[test]
fn every_fetch_that_leaves_has_the_next_number() {
    let mut data = Data::default();
    let turn = data.show(idle(), &session(1, true));
    assert_eq!(turn.fetches.len(), 1);
    assert_eq!(turn.numbers, vec![1]);
    assert_eq!(data.tickets.issued, 1);
    assert_eq!(data.tickets.page, Some(1));
    let turn = data.show(idle(), &session(1, true));
    assert!(turn.numbers.is_empty());
    let turn = data.show(reload(), &session(1, true));
    assert_eq!(turn.numbers, vec![2]);
    assert_eq!(data.tickets.page, Some(2));
    let turn = data.show(
        DataInput { reload: true, page: None, screen: ScreenInput::List(Some(ListChoice::Open(0))) },
        &session(1, true),
    );
    assert_eq!(turn.numbers, vec![3]);
    assert!(turn.turned.is_none());

    data.tickets.issued = u64::MAX - 1;
    let turn = data.show(reload(), &session(1, true));
    assert_eq!(turn.numbers, vec![u64::MAX]);
    let turn = data.show(reload(), &session(1, true));
    assert_eq!(turn.numbers, vec![0]);
    let turn = data.show(reload(), &session(1, true));
    assert_eq!(turn.numbers, vec![1]);
}

#[test]
fn an_outcome_of_a_fetch_that_a_reload_dropped_is_turned_away() {
    let mut data = Data::default();
    data.show(idle(), &session(7, false));
    let first = number(&data, Slot::Page);
    data.show(reload(), &session(7, false));
    let second = number(&data, Slot::Page);
    assert_ne!(first, second);

    data.resolve(Slot::Page, first, Ok(ok("[\"stale\"]")));
    assert_eq!(data.download.promise, Some(Promise::Pending));
    assert_eq!(data.tickets.page, Some(second));

    data.resolve(Slot::Page, second, Ok(ok("[]")));
    assert_eq!(data.download.promise, Some(Promise::Ready(Ok(ok("[]")))));
    assert_eq!(data.tickets.page, None);

    data.resolve(Slot::Page, second, Ok(ok("[\"twice\"]")));
    assert_eq!(data.download.promise, Some(Promise::Ready(Ok(ok("[]")))));
}

#[test]
fn an_outcome_for_a_screen_that_was_left_is_turned_away() {
    let admin = session(1, true);
    let mut data = Data::default();
    data.show(idle(), &admin);
    data.resolve(Slot::Page, number(&data, Slot::Page), Ok(ok("[]")));
    data.show(
        DataInput { reload: false, page: Some(Ok(vec![ranking(9)])), screen: ScreenInput::List(None) },
        &admin,
    );
    let turn = data.show(
        DataInput { reload: false, page: None, screen: ScreenInput::List(Some(ListChoice::Edit(0))) },
        &admin,
    );
    assert_eq!(turn.numbers, vec![2, 3, 4, 5, 6]);
    let stale = number(&data, Slot::Alternatives);
    assert_eq!(stale, 3);

    // Back to the list, and into the editing again: the slots have the same names.
    data.navigate(Screen::RankingList(ranking_client::ranking_list::RankingList {
        ranking_list: vec![ranking(9)],
    }));
    assert_eq!(data.tickets.alternatives, None);
    data.show(
        DataInput { reload: false, page: None, screen: ScreenInput::List(Some(ListChoice::Edit(0))) },
        &admin,
    );
    let fresh = number(&data, Slot::Alternatives);
    assert_ne!(stale, fresh);

    data.resolve(Slot::Alternatives, stale, Ok(ok("[\"stale\"]")));
    match &data.current_view {
        Screen::EditRanking(edit) => {
            assert_eq!(edit.download_alternatives.promise, Some(Promise::Pending))
        },
        _ => panic!("expected the editing"),
    }
    data.resolve(Slot::Alternatives, fresh, Ok(ok("[]")));
    match &data.current_view {
        Screen::EditRanking(edit) => {
            assert_eq!(edit.download_alternatives.promise, Some(Promise::Ready(Ok(ok("[]")))))
        },
        _ => panic!("expected the editing"),
    }
}

#[test]
fn deleting_a_ranking_ends_at_a_list_that_is_fetched_anew() {
    let admin = session(1, true);
    let mut data = Data::default();
    data.navigate(Screen::DeleteRanking(DeleteRanking::new(ranking(9))));
    let turn = data.show(
        DataInput {
            reload: false,
            page: None,
            screen: ScreenInput::Delete(DeleteInput { yes: true, no: false }),
        },
        &admin,
    );
    assert_eq!(turn.screen_fetches.len(), 1);
    assert_eq!(turn.screen_fetches[0].slot, Slot::Action);
    assert_eq!(turn.screen_fetches[0].request.method, "DELETE");
    assert_eq!(turn.screen_fetches[0].request.url, "http://127.0.0.1:8000/ranking/9");
    assert!(turn.turned.is_none());

    data.resolve(Slot::Action, number(&data, Slot::Action), Ok(ok("{}")));
    let turn = data.show(
        DataInput {
            reload: false,
            page: None,
            screen: ScreenInput::Delete(DeleteInput { yes: false, no: false }),
        },
        &admin,
    );
    assert_eq!(turn.screen_notes, vec![Status::Label("Success".to_string())]);
    assert!(matches!(turn.turned, Some(ref departure) if matches!(departure.left, Screen::DeleteRanking(_))));
    assert!(is_list(&data.current_view, &[]));

    let turn = data.show(idle(), &admin);
    assert_eq!(
        turn.fetches,
        vec![Fetch { slot: Slot::Page, request: page_request("http://127.0.0.1:8000/all_rankings") }]
    );
}

#[test]
fn an_accepted_new_ranking_ends_at_a_list_that_is_fetched_anew() {
    let admin = session(1, true);
    let mut data = Data::default();
    data.navigate(Screen::NewRanking(NewRanking::default()));
    let turn = data.show(
        DataInput {
            reload: false,
            page: None,
            screen: ScreenInput::Form(FormInput { back: false, submit: Some(Ok(b"{}".to_vec())) }),
        },
        &admin,
    );
    assert_eq!(turn.screen_fetches.len(), 1);
    assert_eq!(turn.screen_fetches[0].request.url, "http://127.0.0.1:8000/create_ranking");
    assert!(turn.turned.is_none());

    data.resolve(Slot::Action, number(&data, Slot::Action), Ok(ok("{}")));
    let turn = data.show(
        DataInput {
            reload: false,
            page: None,
            screen: ScreenInput::Form(FormInput { back: false, submit: None }),
        },
        &admin,
    );
    let departure = turn.turned.expect("a change of screen");
    assert!(matches!(departure.left, Screen::NewRanking(_)));
    assert!(departure.fetches.is_empty());
    assert!(is_list(&data.current_view, &[]));

    let turn = data.show(idle(), &admin);
    assert_eq!(
        turn.fetches,
        vec![Fetch { slot: Slot::Page, request: page_request("http://127.0.0.1:8000/all_rankings") }]
    );
}

#[test]
fn input_for_another_screen_is_not_looked_at() {
    let mut data = Data::default();
    let turn = data.show(
        DataInput {
            reload: false,
            page: None,
            screen: ScreenInput::Delete(DeleteInput { yes: true, no: true }),
        },
        &session(1, true),
    );
    assert!(turn.screen_notes.is_empty());
    assert!(turn.screen_fetches.is_empty());
    assert!(turn.turned.is_none());
    assert!(is_list(&data.current_view, &[]));
}

#[test]
fn outcomes_reach_the_slot_they_are_for() {
    let mut data = Data::default();
    data.navigate(Screen::DeleteRanking(DeleteRanking::new(ranking(9))));
    data.show(
        DataInput {
            reload: false,
            page: None,
            screen: ScreenInput::Delete(DeleteInput { yes: true, no: false }),
        },
        &session(1, true),
    );
    let action = number(&data, Slot::Action);
    data.resolve(Slot::Page, action, Ok(ok("for the controller")));
    data.resolve(Slot::Scale, action, Ok(ok("for no one")));
    data.resolve(Slot::Action, action + 1, Ok(ok("under another number")));
    match &data.current_view {
        Screen::DeleteRanking(question) => {
            assert_eq!(question.download.promise, Some(Promise::Pending))
        },
        _ => panic!("expected the question"),
    }
    data.resolve(Slot::Action, number(&data, Slot::Action), Err("gone".to_string()));
    match &data.current_view {
        Screen::DeleteRanking(question) => {
            assert_eq!(question.download.promise, Some(Promise::Ready(Err("gone".to_string()))))
        },
        _ => panic!("expected the question"),
    }
}

// ---- the client as a whole ----

fn app_input(login: LoginInput) -> AppInput {
    AppInput { login, data: idle() }
}

#[test]
fn the_client_shows_the_login_until_someone_is_logged_in() {
    let mut app = TemplateApp::default();
    assert_eq!(app.greeting(), None);
    app.login_form.email = "a@b.com".to_string();
    let turn = app.update(app_input(LoginInput { login: true, token: None, expert: None }));
    assert_eq!(turn.fetches.len(), 1);
    assert_eq!(turn.fetches[0].request.url, "http://127.0.0.1:8000/token");
    assert!(turn.turned.is_none());
    assert_eq!(app.data.download.promise, None);

    assert_eq!(turn.numbers, vec![1]);
    app.resolve(Slot::Page, 1, Ok(ok("not for the login")));
    app.resolve(Slot::Action, 2, Ok(ok("under another number")));
    assert_eq!(app.login_form.download.promise, Some(Promise::Pending));
    app.resolve(
        Slot::Action,
        1,
        Ok(ok("{\"acces_token\":\"T\",\"token_type\":\"Bearer\"}")),
    );
    let turn = app.update(app_input(LoginInput {
        login: false,
        token: Some(AccessToken::new("T".to_string(), "Bearer".to_string())),
        expert: None,
    }));
    assert_eq!(turn.fetches.len(), 1);
    assert_eq!(turn.fetches[0].request.url, "http://127.0.0.1:8000/me");
    assert_eq!(
        turn.fetches[0].request.headers,
        vec![
            header("Accept", "*/*"),
            header("Authorization", "Bearer T"),
            header("Access-Control-Allow-Origin", "*"),
        ]
    );

    app.resolve(Slot::Action, number(&app.data, Slot::Action),
        Ok(ok("{\"expert_id\":1,\"name\":\"A\",\"email\":\"a@b.com\",\"admin\":false}")),
    );
    let expert =
        Expert { expert_id: 1, name: "A".to_string(), email: "a@b.com".to_string(), admin: false };
    app.update(app_input(LoginInput { login: false, token: None, expert: Some(expert.clone()) }));
    assert_eq!(
        app.login_form.step,
        LoginStep::Finished(Session::new(
            AccessToken::new("T".to_string(), "Bearer".to_string()),
            expert
        ))
    );
    assert_eq!(app.greeting(), Some("Logged in as: ".to_string()));

    let turn = app.update(app_input(LoginInput { login: true, token: None, expert: None }));
    assert_eq!(
        turn.fetches,
        vec![Fetch { slot: Slot::Page, request: page_request("http://127.0.0.1:8000/rankings/1") }]
    );
    app.resolve(Slot::Page, number(&app.data, Slot::Page), Ok(ok("[]")));
    assert_eq!(app.data.download.promise, Some(Promise::Ready(Ok(ok("[]")))));
}

#[test]
fn an_administrator_is_greeted_as_one() {
    let mut app = TemplateApp::default();
    app.login_form.step = LoginStep::Finished(session(3, true));
    assert_eq!(app.greeting(), Some("Logged in as admin: ".to_string()));
}
