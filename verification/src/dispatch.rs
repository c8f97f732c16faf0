//! The route table and the request dispatcher.
//!
//! The route table is fixed at startup: under the `/app` scope, resolved here
//! into flat patterns, a greeting route `GET /app/{nickname}/{id}`, an echo
//! route `POST /app/echo`, and a counter report `GET /app/hey`. The
//! dispatcher matches a request against the table, binds the matched route's
//! inputs, invokes the handler, and returns status and body. A request that
//! matches no route gets a 404-equivalent, one whose binding fails a
//! 400-equivalent, and neither invokes a handler.

use vstd::prelude::*;
use crate::body::{SomeExampleJson, json_some_data, bind_body};
use crate::num::{parse_u32_spec, parse_u32, dec_digits, u64_to_string};
use crate::query::{Action, ActionType, spec_query_action, bind_query};
use crate::state::AppState;
use crate::text::split_seq;
use crate::text::split_str;
use crate::text::str_eq;

verus! {

/// The request methods the route table distinguishes.
#[derive(Clone, Copy, Debug, PartialEq, Eq, Structural)]
pub enum Method {
    Get,
    Post,
}

/// A request, reduced to the parts the dispatcher reads: the method, the URL
/// path, the raw query string, and the raw body text.
pub struct Request {
    pub method: Method,
    pub path: String,
    pub query: String,
    pub body: String,
}

/// A response: the status code and the plain-text body.
pub struct Response {
    pub status: u16,
    pub body: String,
}

/// The bound form of the greeting route's path parameters.
pub struct User {
    pub nickname: String,
    pub id: u32,
}

/// What matching a path against the route table yields. A greeting match
/// carries the two raw path segments; the id segment is bound later.
pub enum RouteMatch {
    Greeting { nickname: Seq<char>, id_seg: Seq<char> },
    Echo,
    Hey,
    NotFound,
}

/// The route table, resolved to flat patterns: matching is exact on the
/// method and on the path-template shape, and a path parameter matches any
/// single non-empty segment.
pub open spec fn spec_route(method: Method, path: Seq<char>) -> RouteMatch {
    let segs = split_seq(path, '/');
    if segs.len() == 3 && segs[0].len() == 0 && segs[1] == "app"@ {
        if method == Method::Get && segs[2] == "hey"@ {
            RouteMatch::Hey
        } else if method == Method::Post && segs[2] == "echo"@ {
            RouteMatch::Echo
        } else {
            RouteMatch::NotFound
        }
    } else if segs.len() == 4 && segs[0].len() == 0 && segs[1] == "app"@ && method == Method::Get
        && segs[2].len() > 0 && segs[3].len() > 0 {
        RouteMatch::Greeting { nickname: segs[2], id_seg: segs[3] }
    } else {
        RouteMatch::NotFound
    }
}

/// The exec form of a route match, carrying the captured segments.
pub enum Route {
    Greeting { nickname: String, id_seg: String },
    Echo,
    Hey,
    NotFound,
}

impl View for Route {
    type V = RouteMatch;

    open spec fn view(&self) -> RouteMatch {
        match self {
            Route::Greeting { nickname, id_seg } => RouteMatch::Greeting {
                nickname: nickname@,
                id_seg: id_seg@,
            },
            Route::Echo => RouteMatch::Echo,
            Route::Hey => RouteMatch::Hey,
            Route::NotFound => RouteMatch::NotFound,
        }
    }
}

/// Matches a method and path against the route table: the exec counterpart
/// of `spec_route`.
pub fn match_route(method: Method, path: &str) -> (r: Route)
    ensures
        r@ == spec_route(method, path@),
{
    let segs = split_str(path, '/');
    let ghost sv = split_seq(path@, '/');
    proof {
        assert(sv.len() == segs.len());
    }
    if segs.len() == 3 {
        proof {
            assert(sv[0] == segs@[0]@);
            assert(sv[1] == segs@[1]@);
            assert(sv[2] == segs@[2]@);
        }
        if segs[0].as_str().is_empty() && str_eq(segs[1].as_str(), "app") {
            if matches!(method, Method::Get) && str_eq(segs[2].as_str(), "hey") {
                return Route::Hey;
            }
            if matches!(method, Method::Post) && str_eq(segs[2].as_str(), "echo") {
                return Route::Echo;
            }
            return Route::NotFound;
        }
        return Route::NotFound;
    }
    if segs.len() == 4 {
        proof {
            assert(sv[0] == segs@[0]@);
            assert(sv[1] == segs@[1]@);
            assert(sv[2] == segs@[2]@);
            assert(sv[3] == segs@[3]@);
        }
        if segs[0].as_str().is_empty() && str_eq(segs[1].as_str(), "app") && matches!(
            method,
            Method::Get,
        ) && !segs[2].as_str().is_empty() && !segs[3].as_str().is_empty() {
            let nickname = segs[2].clone();
            let id_seg = segs[3].clone();
            return Route::Greeting { nickname, id_seg };
        }
        return Route::NotFound;
    }
    Route::NotFound
}

/// Binds the two greeting path segments: the nickname is taken as given, and
/// the id segment must parse as an unsigned integer. `None` is a binding
/// failure.
pub fn bind_path(nickname: &str, id_seg: &str) -> (r: Option<User>)
    ensures
        match r {
            Option::Some(u) => parse_u32_spec(id_seg@) == Some(u.id) && u.nickname@ == nickname@,
            Option::None => parse_u32_spec(id_seg@) is None,
        },
{
    match parse_u32(id_seg) {
        Option::Some(id) => Some(User { nickname: nickname.to_owned(), id }),
        Option::None => None,
    }
}

/// The text that reports the bound action in a greeting body.
pub open spec fn action_text(a: Option<ActionType>) -> Seq<char> {
    match a {
        Option::Some(ActionType::Sleep) => "Some(Sleep)"@,
        Option::Some(ActionType::WakeUp) => "Some(WakeUp)"@,
        Option::None => "None"@,
    }
}

/// The greeting response body: one plain-text line quoting the nickname, the
/// decimal id, the application name, and the bound action.
pub open spec fn greeting_body(
    nickname: Seq<char>,
    id: u32,
    app_name: Seq<char>,
    a: Option<ActionType>,
) -> Seq<char> {
    "Hello: (nickname: "@ + nickname + ", id: "@ + dec_digits(id as nat) + "), AppName: "@
        + app_name + ", Action: "@ + action_text(a)
}

/// The counter-report body: one plain-text line quoting the counter.
pub open spec fn hey_body(counter: u64) -> Seq<char> {
    "Hello world: counted "@ + dec_digits(counter as nat)
}

fn action_str(a: Option<ActionType>) -> (r: &'static str)
    ensures
        r@ == action_text(a),
{
    match a {
        Option::Some(ActionType::Sleep) => "Some(Sleep)",
        Option::Some(ActionType::WakeUp) => "Some(WakeUp)",
        Option::None => "None",
    }
}

/// Builds the greeting body: the exec counterpart of `greeting_body`.
pub fn render_greeting(nickname: &str, id: u32, app_name: &str, a: Option<ActionType>) -> (r:
    String)
    ensures
        r@ == greeting_body(nickname@, id, app_name@, a),
{
    let mut s = "Hello: (nickname: ".to_owned();
    s.append(nickname);
    s.append(", id: ");
    let id_text = u64_to_string(id as u64);
    s.append(id_text.as_str());
    s.append("), AppName: ");
    s.append(app_name);
    s.append(", Action: ");
    s.append(action_str(a));
    proof {
        assert(s@ =~= greeting_body(nickname@, id, app_name@, a));
    }
    s
}

/// The greeting handler: increments the counter, then reports the bound
/// path parameters, the application name, and the bound action. Success is
/// unconditional once the inputs are bound.
pub fn hello(data: &mut AppState, user: &User, action: &Action) -> (r: Response)
    requires
        old(data).counter < u64::MAX,
    ensures
        final(data).counter == old(data).counter + 1,
        final(data).app_name@ == old(data).app_name@,
        r.status == 200,
        r.body@ == greeting_body(
            user.nickname@,
            user.id,
            old(data).app_name@,
            action.action_type,
        ),
{
    let _count = data.increment_and_read();
    let body = render_greeting(
        user.nickname.as_str(),
        user.id,
        data.app_name.as_str(),
        action.action_type,
    );
    Response { status: 200, body }
}

/// The echo handler: reflects the bound `some_data` field; no mutation.
pub fn echo(example_json: &SomeExampleJson) -> (r: Response)
    ensures
        r.status == 200,
        r.body@ == example_json.some_data@,
{
    Response { status: 200, body: example_json.some_data.clone() }
}

/// The counter-report handler: reads the counter without incrementing it.
pub fn manual_hello(data: &AppState) -> (r: Response)
    ensures
        r.status == 200,
        r.body@ == hey_body(data.counter),
{
    let mut s = "Hello world: counted ".to_owned();
    let count_text = u64_to_string(data.read());
    s.append(count_text.as_str());
    proof {
        assert(s@ =~= hey_body(data.counter));
    }
    Response { status: 200, body: s }
}

/// What dispatching one request does, as a pure function of the state and the
/// request: the counter after the request, the status, and the body.
pub open spec fn spec_dispatch(
    app_name: Seq<char>,
    counter: u64,
    method: Method,
    path: Seq<char>,
    query: Seq<char>,
    body: Seq<char>,
) -> (u64, int, Seq<char>) {
    match spec_route(method, path) {
        RouteMatch::Greeting { nickname, id_seg } => match parse_u32_spec(id_seg) {
            Option::Some(id) => (
                (counter + 1) as u64,
                200int,
                greeting_body(nickname, id, app_name, spec_query_action(query)),
            ),
            Option::None => (counter, 400int, "bad request: invalid id"@),
        },
        RouteMatch::Echo => match json_some_data(body) {
            Option::Some(d) => (counter, 200int, d),
            Option::None => (counter, 400int, "bad request: invalid body"@),
        },
        RouteMatch::Hey => (counter, 200int, hey_body(counter)),
        RouteMatch::NotFound => (counter, 404int, "not found"@),
    }
}

/// Serves one request: matches it against the route table, binds the matched
/// route's inputs, invokes the handler, and returns the response — exactly as
/// `spec_dispatch` says, for every request.
pub fn handle_request(state: &mut AppState, req: &Request) -> (r: Response)
    requires
        old(state).counter < u64::MAX,
    ensures
        final(state).app_name@ == old(state).app_name@,
        ({
            let (counter, status, body) = spec_dispatch(
                old(state).app_name@,
                old(state).counter,
                req.method,
                req.path@,
                req.query@,
                req.body@,
            );
            final(state).counter == counter && r.status == status && r.body@ == body
        }),
{
    match match_route(req.method, req.path.as_str()) {
        Route::Greeting { nickname, id_seg } => {
            match bind_path(nickname.as_str(), id_seg.as_str()) {
                Option::Some(user) => {
                    let action = bind_query(req.query.as_str());
                    hello(state, &user, &action)
                },
                Option::None => Response {
                    status: 400,
                    body: "bad request: invalid id".to_owned(),
                },
            }
        },
        Route::Echo => match bind_body(req.body.as_str()) {
            Option::Some(example_json) => echo(&example_json),
            Option::None => Response { status: 400, body: "bad request: invalid body".to_owned() },
        },
        Route::Hey => manual_hello(state),
        Route::NotFound => Response { status: 404, body: "not found".to_owned() },
    }
}

} // verus!
