use ranking_client::download::Download;
use ranking_client::download::Promise;
use ranking_client::download::Status;
use ranking_client::http::Request;
use ranking_client::http::Response;
use ranking_client::login::AccessToken;
use ranking_client::login::Session;
use ranking_client::schema::Expert;

fn session() -> Session {
    Session::new(
        AccessToken::new("T".to_string(), "Bearer".to_string()),
        Expert { expert_id: 1, name: "A".to_string(), email: "a@b.com".to_string(), admin: false },
    )
}

fn header(name: &str, value: &str) -> (String, String) {
    (name.to_string(), value.to_string())
}

fn plain_request() -> Request {
    Request {
        method: "GET".to_string(),
        url: "http://h/x".to_string(),
        body: vec![1, 2, 3],
        headers: vec![header("Accept", "*/*")],
    }
}

fn ok_response(text: &str) -> Response {
    Response { ok: true, status: 200, status_text: "OK".to_string(), bytes: text.as_bytes().to_vec() }
}

#[test]
fn a_new_slot_is_idle() {
    let slot = Download::new("/rankings".to_string());
    assert_eq!(slot.promise, None);
    assert_eq!(slot.path, "/rankings");
    let slot = Download::default();
    assert_eq!(slot.promise, None);
    assert_eq!(slot.path, "/me");
}

#[test]
fn a_copy_of_a_slot_is_idle() {
    let mut slot = Download::new("/p".to_string());
    slot.download(plain_request());
    let copy = slot.clone();
    assert_eq!(copy.promise, None);
    assert_eq!(copy.path, "/p");
    assert_eq!(slot.promise, Some(Promise::Pending));
    slot.resolve(Ok(ok_response("{}")));
    assert_eq!(slot.clone().promise, None);
}

#[test]
fn an_idle_slot_starts_the_fetch() {
    let mut slot = Download::default();
    let sent = slot.download_if_needed(plain_request());
    assert_eq!(slot.promise, Some(Promise::Pending));
    assert_eq!(
        sent,
        Some(Request {
            method: "GET".to_string(),
            url: "http://h/x".to_string(),
            body: vec![1, 2, 3],
            headers: vec![header("Accept", "*/*"), header("Access-Control-Allow-Origin", "*")],
        })
    );
}

#[test]
fn a_pending_slot_starts_no_second_fetch() {
    let mut slot = Download::default();
    assert!(slot.download_if_needed(plain_request()).is_some());
    for _ in 0..100 {
        assert_eq!(slot.download_if_needed(plain_request()), None);
        assert_eq!(slot.promise, Some(Promise::Pending));
    }
}

#[test]
fn a_slot_that_holds_a_result_starts_no_fetch() {
    let mut slot = Download::default();
    slot.download_if_needed(plain_request());
    slot.resolve(Err("connection refused".to_string()));
    assert_eq!(slot.download_if_needed(plain_request()), None);
    assert_eq!(slot.promise, Some(Promise::Ready(Err("connection refused".to_string()))));
    let mut slot = Download::default();
    slot.download_if_needed(plain_request());
    slot.resolve(Ok(ok_response("[]")));
    assert_eq!(slot.download_if_needed(plain_request()), None);
    assert_eq!(slot.promise, Some(Promise::Ready(Ok(ok_response("[]")))));
}

#[test]
fn download_replaces_what_the_slot_holds() {
    let mut slot = Download::default();
    slot.download(plain_request());
    slot.resolve(Ok(ok_response("[]")));
    let sent = slot.download(plain_request()).expect("a fetch on a slot that does not wait");
    assert_eq!(slot.promise, Some(Promise::Pending));
    assert_eq!(sent.headers.last(), Some(&header("Access-Control-Allow-Origin", "*")));
    assert_eq!(sent.headers.len(), 2);
}

#[test]
fn a_slot_that_waits_takes_no_other_fetch() {
    let mut slot = Download::default();
    assert!(slot.download(plain_request()).is_some());
    for _ in 0..10 {
        assert_eq!(slot.download(plain_request()), None);
        assert_eq!(slot.post_schema(Ok(b"{}".to_vec()), "u".to_string(), &session()), Ok(None));
        assert_eq!(slot.delete_schema("u".to_string(), &session()), None);
        assert_eq!(slot.get_schema("u".to_string(), &session()), None);
        assert_eq!(slot.download_if_needed(plain_request()), None);
        assert_eq!(slot.promise, Some(Promise::Pending));
    }
    slot.resolve(Err("reset".to_string()));
    assert!(slot.get_schema("u".to_string(), &session()).is_some());
    assert_eq!(slot.promise, Some(Promise::Pending));
}

#[test]
fn only_a_pending_slot_takes_an_outcome() {
    let mut slot = Download::default();
    slot.resolve(Ok(ok_response("late")));
    assert_eq!(slot.promise, None);
    slot.download(plain_request());
    slot.resolve(Ok(ok_response("first")));
    slot.resolve(Ok(ok_response("second")));
    assert_eq!(slot.promise, Some(Promise::Ready(Ok(ok_response("first")))));
}

#[test]
fn post_schema_sends_json_with_authorization() {
    let mut slot = Download::default();
    let sent = slot.post_schema(Ok(b"{\"a\":1}".to_vec()), "http://h/create".to_string(), &session());
    assert_eq!(slot.promise, Some(Promise::Pending));
    assert_eq!(
        sent,
        Ok(Some(Request {
            method: "POST".to_string(),
            url: "http://h/create".to_string(),
            body: b"{\"a\":1}".to_vec(),
            headers: vec![
                header("Accept", "*/*"),
                header("Content-Type", "text/plain; charset=utf-8"),
                header("Content-Type", "application/json"),
                header("Authorization", "Bearer T"),
                header("Access-Control-Allow-Origin", "*"),
            ],
        }))
    );
}

#[test]
fn post_schema_gives_back_the_message_of_the_serializer() {
    let mut slot = Download::default();
    let sent = slot.post_schema(Err("key must be a string".to_string()), "u".to_string(), &session());
    assert_eq!(sent, Err("key must be a string".to_string()));
    assert_eq!(slot.promise, None);
    slot.download(plain_request());
    let sent = slot.post_schema(Err("nope".to_string()), "u".to_string(), &session());
    assert_eq!(sent, Err("nope".to_string()));
    assert_eq!(slot.promise, Some(Promise::Pending));
}

#[test]
fn delete_schema_sends_an_empty_delete() {
    let mut slot = Download::default();
    let sent = slot.delete_schema("http://h/scale/3/4".to_string(), &session());
    assert_eq!(slot.promise, Some(Promise::Pending));
    assert_eq!(
        sent,
        Some(Request {
            method: "DELETE".to_string(),
            url: "http://h/scale/3/4".to_string(),
            body: vec![],
            headers: vec![
                header("Accept", "*/*"),
                header("Content-Type", "text/plain; charset=utf-8"),
                header("Authorization", "Bearer T"),
                header("Access-Control-Allow-Origin", "*"),
            ],
        })
    );
}

#[test]
fn get_schema_sends_an_authorized_get() {
    let mut slot = Download::default();
    let sent = slot.get_schema("http://h/criteria/3".to_string(), &session());
    assert_eq!(slot.promise, Some(Promise::Pending));
    assert_eq!(
        sent,
        Some(Request {
            method: "GET".to_string(),
            url: "http://h/criteria/3".to_string(),
            body: vec![],
            headers: vec![
                header("Accept", "*/*"),
                header("Authorization", "Bearer T"),
                header("Access-Control-Allow-Origin", "*"),
            ],
        })
    );
}

#[test]
fn deserialize_when_got_follows_the_slot() {
    let parsed = || Some(Ok::<Vec<i64>, String>(vec![1, 2]));
    let mut slot = Download::default();
    assert_eq!(slot.deserialize_when_got(parsed()), (None, Status::Quiet));
    slot.download(plain_request());
    assert_eq!(slot.deserialize_when_got(parsed()), (None, Status::Spinner));
    slot.resolve(Ok(ok_response("[1,2]")));
    assert_eq!(slot.deserialize_when_got(parsed()), (Some(vec![1, 2]), Status::Quiet));
    assert_eq!(slot.deserialize_when_got(None::<Result<Vec<i64>, String>>), (None, Status::Quiet));
    assert_eq!(
        slot.deserialize_when_got(Some(Err::<Vec<i64>, String>("EOF at line 1".to_string()))),
        (None, Status::Label("Failed to parse response due to: EOF at line 1".to_string()))
    );
}

#[test]
fn deserialize_when_got_reports_what_went_wrong() {
    let parsed = || Some(Ok::<Vec<i64>, String>(vec![1, 2]));
    let mut slot = Download::default();
    slot.download(plain_request());
    slot.resolve(Err("timed out".to_string()));
    assert_eq!(slot.deserialize_when_got(parsed()), (None, Status::Label("timed out".to_string())));
    slot.download(plain_request());
    slot.resolve(Ok(Response {
        ok: false,
        status: 403,
        status_text: "Forbidden".to_string(),
        bytes: b"[1,2]".to_vec(),
    }));
    assert_eq!(
        slot.deserialize_when_got(parsed()),
        (None, Status::Label("Server responded with Forbidden".to_string()))
    );
    slot.download(plain_request());
    slot.resolve(Ok(Response {
        ok: true,
        status: 200,
        status_text: "OK".to_string(),
        bytes: vec![0xff, 0xfe],
    }));
    assert_eq!(
        slot.deserialize_when_got(parsed()),
        (None, Status::Label("Empty response from server".to_string()))
    );
}

#[test]
fn run_when_downloaded_gives_the_response_once_it_is_there() {
    let mut slot = Download::default();
    assert_eq!(slot.run_when_downloaded(), (None, Status::Quiet));
    slot.download(plain_request());
    assert_eq!(slot.run_when_downloaded(), (None, Status::Spinner));
    slot.resolve(Ok(ok_response("x")));
    assert_eq!(slot.run_when_downloaded(), (Some(&ok_response("x")), Status::Quiet));
    slot.download(plain_request());
    slot.resolve(Err("boom".to_string()));
    assert_eq!(slot.run_when_downloaded(), (None, Status::Label("boom".to_string())));
}

#[test]
fn the_authorization_header_is_kind_space_token() {
    let token = AccessToken::new("abc.def".to_string(), "Bearer".to_string());
    let authorized = token.add_authorization_header(plain_request());
    assert_eq!(
        authorized.headers,
        vec![header("Accept", "*/*"), header("Authorization", "Bearer abc.def")]
    );
    let twice = token.add_authorization_header(authorized);
    assert_eq!(twice.headers.len(), 3);
    assert_eq!(twice.headers[2], header("Authorization", "Bearer abc.def"));
    assert_eq!(twice.url, "http://h/x");
    assert_eq!(twice.body, vec![1, 2, 3]);
}

#[test]
fn with_method_changes_the_method_alone() {
    let request = plain_request().with_method("DELETE");
    assert_eq!(request.method, "DELETE");
    assert_eq!(request.url, "http://h/x");
    assert_eq!(request.body, vec![1, 2, 3]);
    assert_eq!(request.headers, vec![header("Accept", "*/*")]);
}

#[test]
fn the_body_is_text_where_it_is_utf8() {
    assert_eq!(ok_response("zażółć gęślą jaźń 🐢").text(), Some("zażółć gęślą jaźń 🐢".to_string()));
    assert_eq!(ok_response("").text(), Some(String::new()));
    let broken = |bytes: &[u8]| Response {
        ok: true,
        status: 200,
        status_text: "OK".to_string(),
        bytes: bytes.to_vec(),
    };
    assert_eq!(broken(&[0xff]).text(), None);
    assert_eq!(broken(&[0xc3, 0x28]).text(), None);
    assert_eq!(broken(&[b'a', 0xe2, 0x82]).text(), None);
    assert_eq!(broken(&[0xed, 0xa0, 0x80]).text(), None);
    assert_eq!(broken(&[0xe2, 0x82, 0xac]).text(), Some("€".to_string()));
}
