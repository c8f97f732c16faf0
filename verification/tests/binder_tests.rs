use greet_server::body::bind_body;
use greet_server::dispatch::{bind_path, match_route, render_greeting, Method, Route};
use greet_server::num::{parse_u32, u64_to_string};
use greet_server::query::{query_action, ActionType};
use greet_server::state::AppState;
use greet_server::text::{find_char, split_str, str_eq};

#[test]
fn parse_u32_accepts_digit_strings() {
    assert_eq!(parse_u32("0"), Some(0));
    assert_eq!(parse_u32("42"), Some(42));
    assert_eq!(parse_u32("007"), Some(7));
    assert_eq!(parse_u32("4294967295"), Some(u32::MAX));
}

#[test]
fn parse_u32_rejects_everything_else() {
    assert_eq!(parse_u32(""), None);
    assert_eq!(parse_u32("abc"), None);
    assert_eq!(parse_u32("1a"), None);
    assert_eq!(parse_u32("+1"), None);
    assert_eq!(parse_u32("-1"), None);
    assert_eq!(parse_u32(" 1"), None);
    assert_eq!(parse_u32("4294967296"), None);
    assert_eq!(parse_u32("99999999999999999999"), None);
}

#[test]
fn query_action_decodes_variant_names() {
    assert_eq!(query_action("action_type=Sleep"), Some(ActionType::Sleep));
    assert_eq!(query_action("action_type=WakeUp"), Some(ActionType::WakeUp));
    assert_eq!(query_action("x=1&action_type=Sleep&y=2"), Some(ActionType::Sleep));
}

#[test]
fn query_action_tolerates_everything_else() {
    assert_eq!(query_action(""), None);
    assert_eq!(query_action("action_type=bogus"), None);
    assert_eq!(query_action("action_type=sleep"), None);
    assert_eq!(query_action("action_type="), None);
    assert_eq!(query_action("action_type"), None);
    assert_eq!(query_action("other=Sleep"), None);
    assert_eq!(query_action("&&&"), None);
}

#[test]
fn query_action_first_component_decides() {
    assert_eq!(
        query_action("action_type=Sleep&action_type=bogus"),
        Some(ActionType::Sleep)
    );
    assert_eq!(query_action("action_type=bogus&action_type=Sleep"), None);
}

#[test]
fn bind_path_parses_the_id() {
    let user = bind_path("alice", "42").unwrap();
    assert_eq!(user.nickname, "alice");
    assert_eq!(user.id, 42);
    assert!(bind_path("alice", "x").is_none());
}

#[test]
fn bind_body_requires_a_string_member() {
    let bound = bind_body("{\"some_data\":\"hi\"}").unwrap();
    assert_eq!(bound.some_data, "hi");
    assert!(bind_body("{}").is_none());
    assert!(bind_body("[]").is_none());
    assert!(bind_body("\"some_data\"").is_none());
    assert!(bind_body("not json").is_none());
}

#[test]
fn match_route_captures_the_segments() {
    match match_route(Method::Get, "/app/alice/42") {
        Route::Greeting { nickname, id_seg } => {
            assert_eq!(nickname, "alice");
            assert_eq!(id_seg, "42");
        }
        _ => panic!("expected the greeting route"),
    }
    assert!(matches!(match_route(Method::Post, "/app/echo"), Route::Echo));
    assert!(matches!(match_route(Method::Get, "/app/hey"), Route::Hey));
    assert!(matches!(match_route(Method::Get, "/app/echo"), Route::NotFound));
}

#[test]
fn split_str_splits_on_the_separator() {
    assert_eq!(split_str("a/b", '/'), vec!["a", "b"]);
    assert_eq!(split_str("", '/'), vec![""]);
    assert_eq!(split_str("/app/x", '/'), vec!["", "app", "x"]);
    assert_eq!(split_str("a&&b", '&'), vec!["a", "", "b"]);
}

#[test]
fn find_char_finds_the_first_occurrence() {
    assert_eq!(find_char("a=b=c", '='), Some(1));
    assert_eq!(find_char("abc", '='), None);
}

#[test]
fn str_eq_compares_characters() {
    assert!(str_eq("", ""));
    assert!(str_eq("abc", "abc"));
    assert!(!str_eq("abc", "abd"));
    assert!(!str_eq("abc", "ab"));
    assert!(str_eq("naïve", "naïve"));
}

#[test]
fn u64_to_string_prints_decimal() {
    assert_eq!(u64_to_string(0), "0");
    assert_eq!(u64_to_string(10), "10");
    assert_eq!(u64_to_string(18446744073709551615), "18446744073709551615");
}

#[test]
fn render_greeting_formats_the_line() {
    let line = render_greeting("bob", 7, "Example App", Some(ActionType::WakeUp));
    assert_eq!(
        line,
        "Hello: (nickname: bob, id: 7), AppName: Example App, Action: Some(WakeUp)"
    );
}

#[test]
fn app_state_counts_from_zero() {
    let mut state = AppState::new("Example App");
    assert_eq!(state.app_name, "Example App");
    assert_eq!(state.read(), 0);
    assert_eq!(state.increment_and_read(), 1);
    assert_eq!(state.increment_and_read(), 2);
    assert_eq!(state.read(), 2);
}
