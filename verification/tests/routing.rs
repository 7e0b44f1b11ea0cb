use httpd_core::HttpVerb;
use httpd_core::StatusCode;
use httpd_core::request::Request;
use httpd_core::route::HandlerKind;
use httpd_core::route::Route;
use httpd_core::route::RouteTarget;
use httpd_core::route::find_route;

fn example_table() -> Vec<Route> {
    vec![
        Route::new(
            HttpVerb::Get,
            b"/".to_vec(),
            true,
            RouteTarget::Static(StatusCode::HttpOk),
        ),
        Route::new(
            HttpVerb::Get,
            b"/echo/".to_vec(),
            false,
            RouteTarget::Dynamic(HandlerKind::Echo),
        ),
        Route::new(
            HttpVerb::Any,
            b"".to_vec(),
            false,
            RouteTarget::Static(StatusCode::NotFound),
        ),
    ]
}

#[test]
fn first_matching_route_wins() {
    let routes = example_table();
    let request = Request::new(HttpVerb::Get, b"/echo/hi".to_vec());
    let (idx, len) = find_route(&routes, &request).expect("echo route matches");
    assert_eq!(idx, 1);
    assert_eq!(len, 6);
}

#[test]
fn catch_all_takes_what_nothing_else_does() {
    let routes = example_table();
    let request = Request::new(HttpVerb::Post, b"/nowhere".to_vec());
    let (idx, len) = find_route(&routes, &request).expect("catch-all matches");
    assert_eq!(idx, 2);
    assert_eq!(len, 0);
}

#[test]
fn exact_route_rejects_longer_path() {
    let routes = example_table();
    let root = Request::new(HttpVerb::Get, b"/".to_vec());
    let (idx, _) = find_route(&routes, &root).expect("root matches exactly");
    assert_eq!(idx, 0);

    let longer = Request::new(HttpVerb::Get, b"/x".to_vec());
    let (idx, _) = find_route(&routes, &longer).expect("catch-all matches");
    assert_eq!(idx, 2);
}

#[test]
fn verb_condition_is_checked() {
    let route = Route::new(
        HttpVerb::Post,
        b"/files/".to_vec(),
        false,
        RouteTarget::Dynamic(HandlerKind::UploadFile),
    );
    let get = Request::new(HttpVerb::Get, b"/files/a".to_vec());
    assert_eq!(route.matches(&get), None);
    let post = Request::new(HttpVerb::Post, b"/files/a".to_vec());
    assert_eq!(route.matches(&post), Some(7));
}

#[test]
fn wildcard_verb_matches_every_verb() {
    let route = Route::new(
        HttpVerb::Any,
        b"".to_vec(),
        false,
        RouteTarget::Static(StatusCode::NotFound),
    );
    for verb in [HttpVerb::Get, HttpVerb::Post, HttpVerb::Unknown] {
        let request = Request::new(verb, b"/whatever".to_vec());
        assert_eq!(route.matches(&request), Some(0));
    }
}

#[test]
fn prefix_match_is_a_byte_prefix() {
    let route = Route::new(
        HttpVerb::Get,
        b"/echo/".to_vec(),
        false,
        RouteTarget::Dynamic(HandlerKind::Echo),
    );
    let request = Request::new(HttpVerb::Get, b"/echo".to_vec());
    assert_eq!(route.matches(&request), None);
    let request = Request::new(HttpVerb::Get, b"/echo/a/b".to_vec());
    assert_eq!(route.matches(&request), Some(6));
}

#[test]
fn strip_path_prefix_removes_matched_bytes() {
    let request = Request::new(HttpVerb::Get, b"/files/a.txt".to_vec());
    let stripped = Request::strip_path_prefix(request, 7);
    assert_eq!(stripped.path().as_slice(), b"a.txt");
    assert_eq!(stripped.verb(), HttpVerb::Get);
}

#[test]
fn strip_path_prefix_keeps_headers() {
    let mut request = Request::new(HttpVerb::Get, b"/echo/x".to_vec());
    request.add_header(&b"User-Agent".to_vec(), &b"probe".to_vec());
    let stripped = Request::strip_path_prefix(request, 6);
    assert_eq!(
        stripped.get_header(&b"User-Agent".to_vec()),
        Some(b"probe".to_vec())
    );
}
