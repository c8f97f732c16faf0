use greet_server::dispatch::{handle_request, Method, Request, Response};
use greet_server::state::AppState;

fn get(path: &str, query: &str) -> Request {
    Request {
        method: Method::Get,
        path: path.to_string(),
        query: query.to_string(),
        body: String::new(),
    }
}

fn post(path: &str, body: &str) -> Request {
    Request {
        method: Method::Post,
        path: path.to_string(),
        query: String::new(),
        body: body.to_string(),
    }
}

fn serve(state: &mut AppState, req: &Request) -> Response {
    handle_request(state, req)
}

#[test]
fn greeting_ok() {
    let mut state = AppState::new("Example App");
    let r = serve(&mut state, &get("/app/alice/42", ""));
    assert_eq!(r.status, 200);
    assert_eq!(
        r.body,
        "Hello: (nickname: alice, id: 42), AppName: Example App, Action: None"
    );
    assert_eq!(state.read(), 1);
}

#[test]
fn greeting_body_quotes_nickname_and_id() {
    let mut state = AppState::new("Example App");
    let r = serve(&mut state, &get("/app/zoe/4294967295", ""));
    assert_eq!(r.status, 200);
    assert!(r.body.contains("zoe"));
    assert!(r.body.contains("4294967295"));
}

#[test]
fn greeting_bad_id_is_400_and_not_counted() {
    let mut state = AppState::new("Example App");
    let r = serve(&mut state, &get("/app/alice/abc", ""));
    assert_eq!(r.status, 400);
    assert_eq!(r.body, "bad request: invalid id");
    assert_eq!(state.read(), 0);
}

#[test]
fn greeting_reports_sleep_action() {
    let mut state = AppState::new("Example App");
    let r = serve(&mut state, &get("/app/alice/1", "action_type=Sleep"));
    assert_eq!(r.status, 200);
    assert_eq!(
        r.body,
        "Hello: (nickname: alice, id: 1), AppName: Example App, Action: Some(Sleep)"
    );
}

#[test]
fn greeting_reports_wake_up_action() {
    let mut state = AppState::new("Example App");
    let r = serve(&mut state, &get("/app/alice/1", "a=b&action_type=WakeUp"));
    assert_eq!(r.status, 200);
    assert!(r.body.ends_with("Action: Some(WakeUp)"));
}

#[test]
fn greeting_tolerates_bogus_action() {
    let mut state = AppState::new("Example App");
    let r = serve(&mut state, &get("/app/alice/1", "action_type=bogus"));
    assert_eq!(r.status, 200);
    assert!(r.body.ends_with("Action: None"));
}

#[test]
fn greeting_tolerates_malformed_query() {
    let mut state = AppState::new("Example App");
    let r = serve(&mut state, &get("/app/alice/1", "&&==&action_type"));
    assert_eq!(r.status, 200);
    assert!(r.body.ends_with("Action: None"));
    assert_eq!(state.read(), 1);
}

#[test]
fn echo_reflects_some_data() {
    let mut state = AppState::new("Example App");
    let r = serve(&mut state, &post("/app/echo", "{\"some_data\":\"hi\"}"));
    assert_eq!(r.status, 200);
    assert_eq!(r.body, "hi");
    assert_eq!(state.read(), 0);
}

#[test]
fn echo_missing_field_is_400() {
    let mut state = AppState::new("Example App");
    let r = serve(&mut state, &post("/app/echo", "{}"));
    assert_eq!(r.status, 400);
    assert_eq!(r.body, "bad request: invalid body");
}

#[test]
fn echo_malformed_json_is_400() {
    let mut state = AppState::new("Example App");
    let r = serve(&mut state, &post("/app/echo", "{\"some_data\":"));
    assert_eq!(r.status, 400);
}

#[test]
fn echo_wrong_type_is_400() {
    let mut state = AppState::new("Example App");
    let r = serve(&mut state, &post("/app/echo", "{\"some_data\":5}"));
    assert_eq!(r.status, 400);
}

#[test]
fn echo_ignores_extra_fields() {
    let mut state = AppState::new("Example App");
    let r = serve(
        &mut state,
        &post("/app/echo", "{\"other\":[1,2],\"some_data\":\"kept\",\"n\":3}"),
    );
    assert_eq!(r.status, 200);
    assert_eq!(r.body, "kept");
}

#[test]
fn hey_reports_without_counting() {
    let mut state = AppState::new("Example App");
    let first = serve(&mut state, &get("/app/hey", ""));
    assert_eq!(first.status, 200);
    assert_eq!(first.body, "Hello world: counted 0");
    let second = serve(&mut state, &get("/app/hey", ""));
    assert_eq!(second.status, 200);
    assert_eq!(second.body, first.body);
    assert_eq!(state.read(), 0);
}

#[test]
fn hey_sees_greeting_increments() {
    let mut state = AppState::new("Example App");
    for _ in 0..5 {
        let r = serve(&mut state, &get("/app/bob/7", ""));
        assert_eq!(r.status, 200);
    }
    let r = serve(&mut state, &get("/app/hey", ""));
    assert_eq!(r.body, "Hello world: counted 5");
    assert_eq!(state.read(), 5);
}

#[test]
fn unmatched_routes_are_404() {
    let mut state = AppState::new("Example App");
    for (method, path) in [
        (Method::Get, "/app/echo"),
        (Method::Post, "/app/hey"),
        (Method::Post, "/app/alice/1"),
        (Method::Get, "/app"),
        (Method::Get, "/app/a/1/2"),
        (Method::Get, "/app//1"),
        (Method::Get, "/app/hey/"),
        (Method::Get, "/other/alice/1"),
        (Method::Get, "app/alice/1"),
    ] {
        let req = Request {
            method,
            path: path.to_string(),
            query: String::new(),
            body: String::new(),
        };
        let r = serve(&mut state, &req);
        assert_eq!(r.status, 404, "expected 404 for {path}");
        assert_eq!(r.body, "not found");
    }
    assert_eq!(state.read(), 0);
}
