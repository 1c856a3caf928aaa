use ntexstudy::handlers::router::{
    accepts, admits, bytes_equal, captures, dispatch, find_header, lower, names_match,
    parse_pattern, scope, split, Guard, Header, Matched, Method, Piece, Route,
};
use ntexstudy::handlers::routes::{config, Handler};

fn header(name: &[u8], value: &[u8]) -> Header {
    Header { name: name.to_vec(), value: value.to_vec() }
}

fn json_headers() -> Vec<Header> {
    vec![header(b"content-type", b"application/json")]
}

fn found(method: Method, path: &[u8], headers: &Vec<Header>) -> Option<Matched> {
    dispatch(&config(), method, path, headers)
}

fn handler(method: Method, path: &[u8], headers: &Vec<Header>) -> Option<Handler> {
    found(method, path, headers).map(|matched| matched.handler)
}

#[test]
fn split_cuts_at_every_slash() {
    assert_eq!(split(b""), vec![b"".to_vec()]);
    assert_eq!(split(b"health"), vec![b"health".to_vec()]);
    assert_eq!(split(b"api/v1/health"), vec![b"api".to_vec(), b"v1".to_vec(), b"health".to_vec()]);
    assert_eq!(split(b"/"), vec![b"".to_vec(), b"".to_vec()]);
    assert_eq!(split(b"a//b/"), vec![b"a".to_vec(), b"".to_vec(), b"b".to_vec(), b"".to_vec()]);
}

#[test]
fn pattern_text_becomes_literals_and_captures() {
    assert_eq!(
        parse_pattern(b"/employee/{id}"),
        vec![Piece::Literal(b"employee".to_vec()), Piece::Capture]
    );
    assert_eq!(
        parse_pattern(b"users/{user_id}/{friend}"),
        vec![Piece::Literal(b"users".to_vec()), Piece::Capture, Piece::Capture]
    );
    assert_eq!(parse_pattern(b"/{}"), vec![Piece::Capture]);
    assert_eq!(parse_pattern(b"/{"), vec![Piece::Literal(b"{".to_vec())]);
    assert_eq!(parse_pattern(b"/{id"), vec![Piece::Literal(b"{id".to_vec())]);
    assert_eq!(parse_pattern(b"/"), vec![Piece::Literal(b"".to_vec())]);
}

#[test]
fn pattern_accepts_piece_by_piece() {
    let pattern = parse_pattern(b"/employee/{id}");
    assert!(accepts(&pattern, &split(b"employee/7")));
    assert!(!accepts(&pattern, &split(b"employee/")));
    assert!(!accepts(&pattern, &split(b"employee")));
    assert!(!accepts(&pattern, &split(b"employee/7/x")));
    assert!(!accepts(&pattern, &split(b"employees/7")));
    assert_eq!(captures(&pattern, &split(b"employee/7")), vec![b"7".to_vec()]);
}

#[test]
fn captures_keep_path_order() {
    let pattern = parse_pattern(b"/users/{user_id}/{friend}");
    assert_eq!(
        captures(&pattern, &split(b"users/42/bob")),
        vec![b"42".to_vec(), b"bob".to_vec()]
    );
}

#[test]
fn bytes_compare_exactly_and_names_without_case() {
    assert!(bytes_equal(b"abc", b"abc"));
    assert!(!bytes_equal(b"abc", b"abd"));
    assert!(!bytes_equal(b"abc", b"ab"));
    assert!(!bytes_equal(b"abc", b"ABC"));
    assert!(names_match(b"Content-Type", b"content-type"));
    assert!(names_match(b"CONTENT-TYPE", b"content-type"));
    assert!(!names_match(b"content-type", b"content_type"));
    assert!(!names_match(b"content-type", b"content-typ"));
    assert_eq!(lower(b'A'), b'a');
    assert_eq!(lower(b'Z'), b'z');
    assert_eq!(lower(b'a'), b'a');
    assert_eq!(lower(b'@'), b'@');
    assert_eq!(lower(b'['), b'[');
    assert_eq!(lower(b'-'), b'-');
}

#[test]
fn first_header_of_a_name_counts() {
    let headers = vec![
        header(b"accept", b"*/*"),
        header(b"Content-Type", b"text/plain"),
        header(b"content-type", b"application/json"),
    ];
    assert_eq!(find_header(&headers, b"content-type"), Some(&b"text/plain".to_vec()));
    assert_eq!(find_header(&headers, b"host"), None);
    assert!(admits(&Guard::header(b"content-type", b"text/plain"), &headers));
    assert!(!admits(&Guard::header(b"content-type", b"application/json"), &headers));
    assert!(!admits(&Guard::header(b"host", b"example.org"), &headers));
    assert!(admits(&Guard::Any, &headers));
    assert!(admits(&Guard::Any, &vec![]));
}

#[test]
fn scope_puts_the_prefix_in_front() {
    let inner = vec![
        Route::new(Method::Post, b"/payload", Guard::Any, Handler::Payload),
        Route::new(Method::Post, b"/json", Guard::Any, Handler::Json),
    ];
    let under = scope(b"/users", &inner);
    assert_eq!(under.len(), 2);
    assert_eq!(under[0], Route::new(Method::Post, b"/users/payload", Guard::Any, Handler::Payload));
    assert_eq!(under[1], Route::new(Method::Post, b"/users/json", Guard::Any, Handler::Json));
}

#[test]
fn the_table_has_fourteen_routes_under_the_version_prefix() {
    let routes = config();
    assert_eq!(routes.len(), 14);
    for route in &routes {
        assert_eq!(route.pattern[0], Piece::Literal(b"api".to_vec()));
        assert_eq!(route.pattern[1], Piece::Literal(b"v1".to_vec()));
    }
    assert_eq!(routes[0].handler, Handler::Health);
    assert_eq!(routes[4].handler, Handler::Payload);
    assert_eq!(routes[5].handler, Handler::Json);
    assert_eq!(routes[13].handler, Handler::DeleteEmployee);
}

#[test]
fn every_route_is_reached() {
    let none = vec![];
    assert_eq!(handler(Method::Get, b"/api/v1/health", &none), Some(Handler::Health));
    assert_eq!(handler(Method::Get, b"/api/v1/index.html", &none), Some(Handler::Index));
    assert_eq!(handler(Method::Get, b"/api/v1/users/42/bob", &none), Some(Handler::Path));
    assert_eq!(handler(Method::Get, b"/api/v1/users/q", &none), Some(Handler::Query));
    assert_eq!(
        handler(Method::Post, b"/api/v1/users/payload", &json_headers()),
        Some(Handler::Payload)
    );
    assert_eq!(handler(Method::Post, b"/api/v1/users/json", &json_headers()), Some(Handler::Json));
    assert_eq!(handler(Method::Get, b"/api/v1/stream", &none), Some(Handler::Stream));
    assert_eq!(handler(Method::Get, b"/api/v1/error", &none), Some(Handler::Error));
    assert_eq!(
        handler(Method::Get, b"/api/v1/resource", &vec![header(b"content-type", b"text/plain")]),
        Some(Handler::Resource)
    );
    assert_eq!(handler(Method::Post, b"/api/v1/employee", &none), Some(Handler::CreateEmployee));
    assert_eq!(handler(Method::Get, b"/api/v1/employee/7", &none), Some(Handler::GetEmployee));
    assert_eq!(handler(Method::Get, b"/api/v1/employees", &none), Some(Handler::GetEmployees));
    assert_eq!(handler(Method::Put, b"/api/v1/employee/7", &none), Some(Handler::UpdateEmployee));
    assert_eq!(
        handler(Method::Delete, b"/api/v1/employee/7", &none),
        Some(Handler::DeleteEmployee)
    );
}

#[test]
fn parameters_come_from_the_path() {
    let none = vec![];
    assert_eq!(
        found(Method::Get, b"/api/v1/employee/7", &none),
        Some(Matched { handler: Handler::GetEmployee, params: vec![b"7".to_vec()] })
    );
    assert_eq!(
        found(Method::Get, b"/api/v1/users/42/bob", &none),
        Some(Matched { handler: Handler::Path, params: vec![b"42".to_vec(), b"bob".to_vec()] })
    );
    assert_eq!(
        found(Method::Get, b"/api/v1/health", &none),
        Some(Matched { handler: Handler::Health, params: vec![] })
    );
    assert_eq!(
        found(Method::Get, b"/api/v1/employee/abc", &none),
        Some(Matched { handler: Handler::GetEmployee, params: vec![b"abc".to_vec()] })
    );
}

#[test]
fn unmatched_requests_are_not_found() {
    let none = vec![];
    assert_eq!(found(Method::Get, b"/", &none), None);
    assert_eq!(found(Method::Get, b"", &none), None);
    assert_eq!(found(Method::Get, b"api/v1/health", &none), None);
    assert_eq!(found(Method::Get, b"/health", &none), None);
    assert_eq!(found(Method::Get, b"/api/v1", &none), None);
    assert_eq!(found(Method::Get, b"/api/v1/", &none), None);
    assert_eq!(found(Method::Get, b"/api/v1/health/", &none), None);
    assert_eq!(found(Method::Get, b"//api/v1/health", &none), None);
    assert_eq!(found(Method::Get, b"/api/v2/health", &none), None);
    assert_eq!(found(Method::Get, b"/api/v1/Health", &none), None);
    assert_eq!(found(Method::Get, b"/api/v1/employee/", &none), None);
    assert_eq!(found(Method::Get, b"/api/v1/employee/7/8", &none), None);
    assert_eq!(found(Method::Get, b"/api/v1/nothing", &none), None);
}

#[test]
fn a_wrong_method_is_no_match() {
    let none = vec![];
    assert_eq!(found(Method::Post, b"/api/v1/health", &none), None);
    assert_eq!(found(Method::Get, b"/api/v1/employee", &none), None);
    assert_eq!(found(Method::Post, b"/api/v1/employee/7", &none), None);
    assert_eq!(found(Method::Patch, b"/api/v1/employee/7", &none), None);
    assert_eq!(found(Method::Head, b"/api/v1/health", &none), None);
    assert_eq!(found(Method::Options, b"/api/v1/health", &none), None);
    assert_eq!(found(Method::Delete, b"/api/v1/employees", &none), None);
    assert_eq!(found(Method::Get, b"/api/v1/users/payload", &json_headers()), None);
}

#[test]
fn a_failed_guard_is_no_match() {
    assert_eq!(found(Method::Post, b"/api/v1/users/payload", &vec![]), None);
    assert_eq!(found(Method::Post, b"/api/v1/users/json", &vec![]), None);
    assert_eq!(
        found(Method::Post, b"/api/v1/users/json", &vec![header(b"content-type", b"text/plain")]),
        None
    );
    assert_eq!(
        found(
            Method::Post,
            b"/api/v1/users/json",
            &vec![header(b"content-type", b"application/json; charset=utf-8")]
        ),
        None
    );
    assert_eq!(
        found(Method::Post, b"/api/v1/users/json", &vec![header(b"accept", b"application/json")]),
        None
    );
    assert_eq!(found(Method::Get, b"/api/v1/resource", &vec![]), None);
    assert_eq!(found(Method::Get, b"/api/v1/resource", &json_headers()), None);
    assert_eq!(
        handler(
            Method::Post,
            b"/api/v1/users/json",
            &vec![header(b"Content-Type", b"application/json")]
        ),
        Some(Handler::Json)
    );
}

#[test]
fn the_first_accepting_route_wins() {
    let none = vec![];
    assert_eq!(handler(Method::Get, b"/api/v1/users/q", &none), Some(Handler::Query));
    assert_eq!(handler(Method::Get, b"/api/v1/users/q/x", &none), Some(Handler::Path));
    assert_eq!(handler(Method::Get, b"/api/v1/users/payload/x", &none), Some(Handler::Path));
    let twice = vec![
        Route::new(Method::Get, b"/a/{x}", Guard::Any, Handler::Path),
        Route::new(Method::Get, b"/a/b", Guard::Any, Handler::Index),
    ];
    assert_eq!(
        dispatch(&twice, Method::Get, b"/a/b", &none),
        Some(Matched { handler: Handler::Path, params: vec![b"b".to_vec()] })
    );
    let guarded_first = vec![
        Route::new(Method::Get, b"/a", Guard::header(b"x-kind", b"one"), Handler::Json),
        Route::new(Method::Get, b"/a", Guard::Any, Handler::Index),
    ];
    assert_eq!(
        dispatch(&guarded_first, Method::Get, b"/a", &none).map(|matched| matched.handler),
        Some(Handler::Index)
    );
    assert_eq!(
        dispatch(&guarded_first, Method::Get, b"/a", &vec![header(b"x-kind", b"one")])
            .map(|matched| matched.handler),
        Some(Handler::Json)
    );
}

#[test]
fn an_empty_table_finds_nothing() {
    assert_eq!(dispatch(&vec![], Method::Get, b"/", &vec![]), None);
}
