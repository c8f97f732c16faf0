//! Laws of the dispatcher, stated over `spec_dispatch` and proved here: what
//! a run of requests does to the counter, what a bound greeting answers, and
//! that reading the counter report changes nothing.

use vstd::prelude::*;
use crate::dispatch::{
    Method, RouteMatch, action_text, greeting_body, spec_dispatch, spec_route,
};
use crate::num::{dec_digits, parse_u32_spec};
use crate::query::{ActionType, spec_query_action};
use crate::text::contains_seq;

verus! {

/// A request, as the dispatch model sees it.
pub struct RequestModel {
    pub method: Method,
    pub path: Seq<char>,
    pub query: Seq<char>,
    pub body: Seq<char>,
}

/// The counter after one request is served on a state with counter `counter`.
pub open spec fn counter_after(app_name: Seq<char>, counter: u64, m: RequestModel) -> u64 {
    spec_dispatch(app_name, counter, m.method, m.path, m.query, m.body).0
}

/// The counter after the requests of `reqs` are served one at a time, in
/// order.
pub open spec fn run_counter(app_name: Seq<char>, counter: u64, reqs: Seq<RequestModel>) -> u64
    decreases reqs.len(),
{
    if reqs.len() == 0 {
        counter
    } else {
        run_counter(app_name, counter_after(app_name, counter, reqs[0]), reqs.drop_first())
    }
}

/// `m` is a greeting request whose path parameters bind: the one kind of
/// request that increments the counter.
pub open spec fn is_counted_greeting(m: RequestModel) -> bool {
    match spec_route(m.method, m.path) {
        RouteMatch::Greeting { nickname: _, id_seg } => parse_u32_spec(id_seg) is Some,
        _ => false,
    }
}

/// How many requests of `reqs` are counted greetings.
pub open spec fn count_greetings(reqs: Seq<RequestModel>) -> nat
    decreases reqs.len(),
{
    if reqs.len() == 0 {
        0
    } else {
        (if is_counted_greeting(reqs[0]) {
            1nat
        } else {
            0nat
        }) + count_greetings(reqs.drop_first())
    }
}

/// No lost updates: serving any requests one at a time — concurrent callers
/// in whatever completion order their increments are serialized — leaves the
/// counter higher by exactly the number of bound greeting requests among
/// them; every other request leaves it untouched.
pub proof fn lemma_counter_counts_greetings(
    app_name: Seq<char>,
    counter: u64,
    reqs: Seq<RequestModel>,
)
    requires
        counter + count_greetings(reqs) <= u64::MAX,
    ensures
        run_counter(app_name, counter, reqs) == counter + count_greetings(reqs),
    decreases reqs.len(),
{
    if reqs.len() > 0 {
        let m = reqs[0];
        let c1 = counter_after(app_name, counter, m);
        if is_counted_greeting(m) {
            assert(c1 == counter + 1);
        } else {
            assert(c1 == counter);
        }
        lemma_counter_counts_greetings(app_name, c1, reqs.drop_first());
    }
}

/// Every greeting request whose path parameters bind is answered 200, the
/// counter moves up by one, and the body quotes the nickname and the decimal
/// id exactly as given — whatever the query string holds.
pub proof fn lemma_greeting_reflects_user(
    app_name: Seq<char>,
    counter: u64,
    m: RequestModel,
    nickname: Seq<char>,
    id_seg: Seq<char>,
    id: u32,
)
    requires
        spec_route(m.method, m.path) == (RouteMatch::Greeting { nickname, id_seg }),
        parse_u32_spec(id_seg) == Some(id),
        counter < u64::MAX,
    ensures
        ({
            let (c, status, body) = spec_dispatch(
                app_name,
                counter,
                m.method,
                m.path,
                m.query,
                m.body,
            );
            c == counter + 1 && status == 200 && contains_seq(body, nickname) && contains_seq(
                body,
                dec_digits(id as nat),
            )
        }),
{
    let body = spec_dispatch(app_name, counter, m.method, m.path, m.query, m.body).2;
    lemma_greeting_body_quotes(nickname, id, app_name, spec_query_action(m.query));
    assert(body == greeting_body(nickname, id, app_name, spec_query_action(m.query)));
}

/// The greeting body quotes the nickname, the decimal id, and the report of
/// the bound action, each as one contiguous run.
pub proof fn lemma_greeting_body_quotes(
    nickname: Seq<char>,
    id: u32,
    app_name: Seq<char>,
    a: Option<ActionType>,
)
    ensures
        contains_seq(greeting_body(nickname, id, app_name, a), nickname),
        contains_seq(greeting_body(nickname, id, app_name, a), dec_digits(id as nat)),
        contains_seq(greeting_body(nickname, id, app_name, a), action_text(a)),
{
    let body = greeting_body(nickname, id, app_name, a);
    let k1 = "Hello: (nickname: "@.len() as int;
    assert(body.subrange(k1, k1 + nickname.len()) =~= nickname);
    let k2 = k1 + nickname.len() + ", id: "@.len();
    let digits = dec_digits(id as nat);
    assert(body.subrange(k2, k2 + digits.len()) =~= digits);
    let k3 = body.len() - action_text(a).len();
    assert(body.subrange(k3, k3 + action_text(a).len()) =~= action_text(a));
}

/// A greeting request whose id segment does not bind is answered 400 and the
/// counter does not move.
pub proof fn lemma_bad_id_rejected(
    app_name: Seq<char>,
    counter: u64,
    m: RequestModel,
    nickname: Seq<char>,
    id_seg: Seq<char>,
)
    requires
        spec_route(m.method, m.path) == (RouteMatch::Greeting { nickname, id_seg }),
        parse_u32_spec(id_seg) is None,
    ensures
        ({
            let (c, status, body) = spec_dispatch(
                app_name,
                counter,
                m.method,
                m.path,
                m.query,
                m.body,
            );
            c == counter && status == 400
        }),
{
}

/// The counter report reads without writing: two report requests in a row,
/// with nothing between them, return the same 200 body, and the counter is
/// where it started.
pub proof fn lemma_hey_stable(
    app_name: Seq<char>,
    counter: u64,
    m1: RequestModel,
    m2: RequestModel,
)
    requires
        spec_route(m1.method, m1.path) == RouteMatch::Hey,
        spec_route(m2.method, m2.path) == RouteMatch::Hey,
    ensures
        ({
            let (c1, s1, b1) = spec_dispatch(app_name, counter, m1.method, m1.path, m1.query, m1.body);
            let (c2, s2, b2) = spec_dispatch(app_name, c1, m2.method, m2.path, m2.query, m2.body);
            c1 == counter && c2 == counter && s1 == 200 && s2 == 200 && b1 == b2
        }),
{
}

} // verus!
