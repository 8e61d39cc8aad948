use racerd_http::pipeline::MAX_BODY_LENGTH;
use racerd_http::request::{
    admission, Admission, STATUS_NOT_FOUND, STATUS_OK, STATUS_PAYLOAD_TOO_LARGE,
};
use racerd_http::routes::{request_path, route, Method, Route};

#[test]
fn routes_match_exactly() {
    assert_eq!(route(Method::Post, "/parse_file"), Some(Route::ParseFile));
    assert_eq!(route(Method::Post, "/find_definition"), Some(Route::FindDefinition));
    assert_eq!(route(Method::Post, "/list_completions"), Some(Route::ListCompletions));
    assert_eq!(route(Method::Get, "/ping"), Some(Route::Ping));
}

#[test]
fn unmatched_routes_are_none() {
    assert_eq!(route(Method::Get, "/find_definition"), None);
    assert_eq!(route(Method::Post, "/ping"), None);
    assert_eq!(route(Method::Other, "/ping"), None);
    assert_eq!(route(Method::Get, "/ping/"), None);
    assert_eq!(route(Method::Get, "/pin"), None);
    assert_eq!(route(Method::Post, "/find_definition/x"), None);
    assert_eq!(route(Method::Get, ""), None);
}

#[test]
fn only_ping_skips_engine() {
    assert!(!Route::Ping.uses_engine());
    assert!(Route::ParseFile.uses_engine());
    assert!(Route::FindDefinition.uses_engine());
    assert!(Route::ListCompletions.uses_engine());
}

#[test]
fn oversized_body_is_rejected_before_routing() {
    let n = MAX_BODY_LENGTH + 1;
    for (m, p) in [
        (Method::Post, "/find_definition"),
        (Method::Post, "/parse_file"),
        (Method::Post, "/list_completions"),
        (Method::Get, "/ping"),
        (Method::Get, "/nowhere"),
    ] {
        let a = admission(m, p, n);
        assert_eq!(a, Admission::Reject(STATUS_PAYLOAD_TOO_LARGE));
        assert_eq!(STATUS_PAYLOAD_TOO_LARGE, 413);
    }
}

#[test]
fn body_at_cap_is_dispatched() {
    assert_eq!(MAX_BODY_LENGTH, 10 * 1024 * 1024);
    assert_eq!(
        admission(Method::Post, "/find_definition", MAX_BODY_LENGTH),
        Admission::Dispatch(Route::FindDefinition)
    );
    assert_eq!(admission(Method::Post, "/parse_file", 0), Admission::Dispatch(Route::ParseFile));
}

#[test]
fn unknown_route_is_not_found() {
    assert_eq!(admission(Method::Get, "/missing", 0), Admission::Reject(STATUS_NOT_FOUND));
    assert_eq!(STATUS_NOT_FOUND, 404);
}

#[test]
fn ping_is_dispatched_without_engine() {
    let a = admission(Method::Get, "/ping", 0);
    assert_eq!(a, Admission::Dispatch(Route::Ping));
    let reply = racerd_http::request::ping_reply();
    assert_eq!(reply.status, STATUS_OK);
    assert_eq!(reply.body, Some(()));
}

#[test]
fn request_path_from_segments() {
    assert_eq!(request_path(&["ping"]), "/ping");
    assert_eq!(request_path(&["a", "b"]), "/a/b");
    assert_eq!(request_path(&[""]), "/");
    assert_eq!(request_path(&[]), "");
    assert_eq!(route(Method::Post, &request_path(&["find_definition"])), Some(Route::FindDefinition));
}
