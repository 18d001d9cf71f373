use todo_cli::credential::Credential;
use todo_cli::error::Error;
use todo_cli::http::{Method, Request, Response};
use todo_cli::manager::{adopt_refreshed, held_credential, Action, ApiCall, Event, Phase};
use todo_cli::store::TokenStore;
use todo_cli::tasks::task_lists_request;

fn credential(access: &str, refresh: Option<&str>) -> Credential {
    Credential {
        access_token: access.to_string(),
        refresh_token: refresh.map(|r| r.to_string()),
        expiry: Some(3600),
        token_type: "bearer".to_string(),
    }
}

fn store_with(credential: &Credential) -> TokenStore {
    let mut store = TokenStore::empty();
    store.save(credential).unwrap();
    store
}

fn response(status: u16, body: &str) -> Response {
    Response { status, body: body.to_string() }
}

fn expect_refresh(action: Action, token: &str) {
    match action {
        Action::Refresh { refresh_token } => assert_eq!(refresh_token, token),
        other => panic!("expected a refresh, got {:?}", other),
    }
}

fn expect_send(action: Action, url: &str, authorization_value: &str) {
    match action {
        Action::Send { request, authorization } => {
            assert_eq!(request.method, Method::Get);
            assert_eq!(request.url, url);
            assert_eq!(request.body, None);
            assert_eq!(authorization, authorization_value);
        }
        other => panic!("expected a send, got {:?}", other),
    }
}

const LISTS: &str = "https://graph.microsoft.com/v1.0/me/todo/lists";

#[test]
fn call_without_token_file_fails_with_no_credential() {
    let store = TokenStore::empty();
    let (call, action) = ApiCall::start(&store, task_lists_request());
    assert!(call.is_done());
    assert!(matches!(action, Action::Fail(Error::NoCredential)));
    assert_eq!(held_credential(&store), Err(Error::NoCredential));
}

#[test]
fn call_with_corrupt_token_file_fails() {
    let store = TokenStore::from_disk(true, Some(": not yaml :".to_string()));
    let (call, action) = ApiCall::start(&store, task_lists_request());
    assert!(call.is_done());
    assert!(matches!(action, Action::Fail(Error::CorruptCredential)));
}

#[test]
fn call_without_refresh_token_cannot_refresh() {
    let store = store_with(&credential("a0", None));
    let (call, action) = ApiCall::start(&store, task_lists_request());
    assert!(call.is_done());
    assert!(matches!(action, Action::Fail(Error::AuthorizationFailed)));
}

#[test]
fn every_call_refreshes_before_it_sends() {
    let mut store = store_with(&credential("a0", Some("r0")));
    let (mut call, action) = ApiCall::start(&store, task_lists_request());
    assert_eq!(call.phase(), Phase::Refreshing { retried: false });
    expect_refresh(action, "r0");

    let action = call.step(&mut store, Event::Refreshed(credential("a1", Some("r1"))));
    assert_eq!(call.phase(), Phase::Sending { retried: false });
    expect_send(action, LISTS, "Bearer a1");
    assert_eq!(store.load(), Ok(credential("a1", Some("r1"))));

    let action = call.step(&mut store, Event::Responded(response(200, "{\"value\":[]}")));
    assert!(call.is_done());
    match action {
        Action::Deliver(answer) => {
            assert_eq!(answer.status, 200);
            assert_eq!(answer.body, "{\"value\":[]}");
        }
        other => panic!("expected the answer, got {:?}", other),
    }
}

#[test]
fn refresh_without_new_refresh_token_keeps_the_old_one() {
    let mut store = store_with(&credential("a0", Some("r0")));
    let (mut call, _) = ApiCall::start(&store, task_lists_request());
    let action = call.step(&mut store, Event::Refreshed(credential("a1", None)));
    expect_send(action, LISTS, "Bearer a1");
    assert_eq!(store.load(), Ok(credential("a1", Some("r0"))));

    let held = credential("a0", Some("r0"));
    let kept = held.renewed(credential("a1", None));
    assert_eq!(kept, credential("a1", Some("r0")));
    let kept = held.renewed(credential("a2", Some("r2")));
    assert_eq!(kept, credential("a2", Some("r2")));
}

#[test]
fn unauthorized_once_then_success_on_retry() {
    let mut store = store_with(&credential("a0", Some("r0")));
    let (mut call, action) = ApiCall::start(&store, task_lists_request());
    expect_refresh(action, "r0");
    let action = call.step(&mut store, Event::Refreshed(credential("a1", Some("r1"))));
    expect_send(action, LISTS, "Bearer a1");

    let action = call.step(&mut store, Event::Responded(response(401, "")));
    assert_eq!(call.phase(), Phase::Refreshing { retried: true });
    expect_refresh(action, "r1");

    let action = call.step(&mut store, Event::Refreshed(credential("a2", None)));
    assert_eq!(call.phase(), Phase::Sending { retried: true });
    expect_send(action, LISTS, "Bearer a2");
    assert_eq!(store.load(), Ok(credential("a2", Some("r1"))));

    let body = "{\"value\":[{\"displayName\":\"Tasks\",\"id\":\"L1\"}]}";
    let action = call.step(&mut store, Event::Responded(response(200, body)));
    assert!(call.is_done());
    match action {
        Action::Deliver(answer) => assert_eq!(answer.body, body),
        other => panic!("expected the answer, got {:?}", other),
    }
}

#[test]
fn unauthorized_twice_surfaces_unauthorized() {
    let mut store = store_with(&credential("a0", Some("r0")));
    let (mut call, _) = ApiCall::start(&store, task_lists_request());
    call.step(&mut store, Event::Refreshed(credential("a1", Some("r1"))));
    call.step(&mut store, Event::Responded(response(401, "")));
    call.step(&mut store, Event::Refreshed(credential("a2", Some("r2"))));
    let action = call.step(&mut store, Event::Responded(response(401, "")));
    assert!(call.is_done());
    assert!(matches!(action, Action::Fail(Error::Unauthorized)));

    let before = store.contents().cloned();
    for event in [
        Event::Responded(response(401, "")),
        Event::Refreshed(credential("a3", Some("r3"))),
        Event::Responded(response(200, "")),
        Event::RefreshRejected,
        Event::TransportFailed,
    ] {
        let action = call.step(&mut store, event);
        assert!(matches!(action, Action::Nothing));
        assert!(call.is_done());
    }
    assert_eq!(store.contents().cloned(), before);
}

#[test]
fn other_statuses_are_delivered_without_retry() {
    for status in [200u16, 204, 400, 403, 404, 500] {
        let mut store = store_with(&credential("a0", Some("r0")));
        let (mut call, _) = ApiCall::start(&store, task_lists_request());
        call.step(&mut store, Event::Refreshed(credential("a1", Some("r1"))));
        let action = call.step(&mut store, Event::Responded(response(status, "x")));
        assert!(call.is_done());
        match action {
            Action::Deliver(answer) => assert_eq!(answer.status, status),
            other => panic!("expected the answer, got {:?}", other),
        }
    }
}

#[test]
fn rejected_refresh_fails_the_call() {
    let mut store = store_with(&credential("a0", Some("r0")));
    let (mut call, _) = ApiCall::start(&store, task_lists_request());
    let action = call.step(&mut store, Event::RefreshRejected);
    assert!(call.is_done());
    assert!(matches!(action, Action::Fail(Error::AuthorizationFailed)));
    assert_eq!(store.load(), Ok(credential("a0", Some("r0"))));
}

#[test]
fn transport_failure_fails_the_call() {
    let mut store = store_with(&credential("a0", Some("r0")));
    let (mut call, _) = ApiCall::start(&store, task_lists_request());
    let action = call.step(&mut store, Event::TransportFailed);
    assert!(matches!(action, Action::Fail(Error::NetworkError)));

    let (mut call, _) = ApiCall::start(&store, task_lists_request());
    call.step(&mut store, Event::Refreshed(credential("a1", Some("r1"))));
    let action = call.step(&mut store, Event::TransportFailed);
    assert!(call.is_done());
    assert!(matches!(action, Action::Fail(Error::NetworkError)));
}

#[test]
fn events_out_of_turn_are_ignored() {
    let mut store = store_with(&credential("a0", Some("r0")));
    let (mut call, _) = ApiCall::start(&store, task_lists_request());
    let action = call.step(&mut store, Event::Responded(response(200, "early")));
    assert!(matches!(action, Action::Nothing));
    assert_eq!(call.phase(), Phase::Refreshing { retried: false });

    call.step(&mut store, Event::Refreshed(credential("a1", Some("r1"))));
    let action = call.step(&mut store, Event::Refreshed(credential("a9", Some("r9"))));
    assert!(matches!(action, Action::Nothing));
    assert_eq!(call.phase(), Phase::Sending { retried: false });
    assert_eq!(store.load(), Ok(credential("a1", Some("r1"))));
}

#[test]
fn no_run_sends_more_than_twice() {
    let mut store = store_with(&credential("a0", Some("r0")));
    let (mut call, first) = ApiCall::start(&store, task_lists_request());
    let mut sends = 0;
    let mut refreshes = if matches!(first, Action::Refresh { .. }) { 1 } else { 0 };
    for round in 0..20 {
        let event = if round % 2 == 0 {
            Event::Refreshed(credential("a", Some("r")))
        } else {
            Event::Responded(response(401, ""))
        };
        match call.step(&mut store, event) {
            Action::Send { .. } => sends += 1,
            Action::Refresh { .. } => refreshes += 1,
            _ => {}
        }
    }
    assert_eq!(sends, 2);
    assert_eq!(refreshes, 2);
    assert!(call.is_done());
}

#[test]
fn adopting_a_refresh_overwrites_the_store() {
    let held = credential("a0", Some("r0"));
    let mut store = store_with(&held);
    let adopted = adopt_refreshed(&mut store, &held, credential("a1", None));
    assert_eq!(adopted, Ok(credential("a1", Some("r0"))));
    assert_eq!(store.load(), Ok(credential("a1", Some("r0"))));
    assert_eq!(held_credential(&store), Ok(credential("a1", Some("r0"))));
}

#[test]
fn request_is_sent_unchanged_on_retry() {
    let request = Request {
        method: Method::Post,
        url: "https://example.test/x".to_string(),
        body: Some("{\"title\":\"t\"}".to_string()),
    };
    let mut store = store_with(&credential("a0", Some("r0")));
    let (mut call, _) = ApiCall::start(&store, request);
    call.step(&mut store, Event::Refreshed(credential("a1", Some("r1"))));
    call.step(&mut store, Event::Responded(response(401, "")));
    match call.step(&mut store, Event::Refreshed(credential("a2", Some("r2")))) {
        Action::Send { request, authorization } => {
            assert_eq!(request.method, Method::Post);
            assert_eq!(request.url, "https://example.test/x");
            assert_eq!(request.body, Some("{\"title\":\"t\"}".to_string()));
            assert_eq!(authorization, "Bearer a2");
        }
        other => panic!("expected a send, got {:?}", other),
    }
}

#[test]
fn resume_goes_on_with_the_adopted_credential() {
    let store = store_with(&credential("a0", Some("r0")));
    let (mut call, _) = ApiCall::start(&store, task_lists_request());
    expect_send(call.resume(Ok(credential("a1", Some("r1")))), LISTS, "Bearer a1");
    assert_eq!(call.phase(), Phase::Sending { retried: false });
    assert!(matches!(call.resume(Ok(credential("a2", Some("r2")))), Action::Nothing));
    assert_eq!(call.phase(), Phase::Sending { retried: false });

    let (mut call, _) = ApiCall::start(&store, task_lists_request());
    let action = call.resume(Err(Error::CorruptCredential));
    assert!(matches!(action, Action::Fail(Error::CorruptCredential)));
    assert!(call.is_done());

    let (mut call, _) = ApiCall::start(&store, task_lists_request());
    let action = call.resume(Ok(credential("a1", None)));
    assert!(matches!(action, Action::Fail(Error::AuthorizationFailed)));
    assert!(call.is_done());
}
