use flair::filter::{run_request_filters, Filter, LinkAuthor, RequestFilterOutcome};
use flair::http::{Method, ParamMap, Request};
use flair::path::{split_on, PathTemplate, Segment};
use flair::route::{add_routes, generate_routes, Dispatch, Operation, Route, RouteTable};
use flair::search::SearchController;

fn request(method: Method, path: &str) -> Request {
    Request { method, path: path.to_string(), headers: vec![], body: vec![] }
}

fn params_of(m: &ParamMap) -> Vec<(String, String)> {
    m.entries.iter().map(|p| (p.name.clone(), p.value.clone())).collect()
}

#[test]
fn split_keeps_empty_pieces() {
    assert_eq!(split_on("/a/5", '/'), vec!["", "a", "5"]);
    assert_eq!(split_on("", '/'), vec![""]);
    assert_eq!(split_on("/a/", '/'), vec!["", "a", ""]);
}

#[test]
fn compile_reads_captures() {
    let t = PathTemplate::compile("/:version/search").unwrap();
    assert_eq!(t.segments.len(), 3);
    assert!(matches!(&t.segments[0], Segment::Literal(s) if s.is_empty()));
    assert!(matches!(&t.segments[1], Segment::Capture(s) if s == "version"));
    assert!(matches!(&t.segments[2], Segment::Literal(s) if s == "search"));
}

#[test]
fn compile_refuses_repeated_capture() {
    assert!(PathTemplate::compile("/:id/x/:id").is_none());
    assert!(PathTemplate::compile("/:id/x/:other").is_some());
}

#[test]
fn match_binds_captures_and_query() {
    let t = PathTemplate::compile("/:version/search/:query").unwrap();
    let m = t.match_target("/1/search/abc?x=1&flag&&y=").unwrap();
    assert_eq!(
        params_of(&m),
        vec![
            ("version".to_string(), "1".to_string()),
            ("query".to_string(), "abc".to_string()),
            ("x".to_string(), "1".to_string()),
            ("flag".to_string(), "".to_string()),
            ("y".to_string(), "".to_string()),
        ]
    );
    assert_eq!(m.get("query").unwrap(), "abc");
    assert!(m.get("missing").is_none());
}

#[test]
fn match_needs_same_segment_count_and_literals() {
    let t = PathTemplate::compile("/a/:id").unwrap();
    assert!(t.match_target("/a").is_none());
    assert!(t.match_target("/a/5/6").is_none());
    assert!(t.match_target("/b/5").is_none());
    assert!(t.match_target("/a/").is_none());
    assert!(t.match_target("/a/5").is_some());
}

fn table_of(paths: &[&str]) -> RouteTable<usize> {
    let mut table = RouteTable::new();
    for (i, p) in paths.iter().enumerate() {
        table.register(Route::filtered(p, i, vec![]).unwrap());
    }
    table
}

#[test]
fn item_and_collection_templates_in_either_order() {
    for order in [["/a/:id", "/a"], ["/a", "/a/:id"]] {
        let table = table_of(&order);
        let item = order.iter().position(|p| *p == "/a/:id").unwrap();
        let coll = order.iter().position(|p| *p == "/a").unwrap();
        let (i, m) = table.find("/a/5").unwrap();
        assert_eq!(i, item);
        assert_eq!(m.get("id").unwrap(), "5");
        let (j, m) = table.find("/a").unwrap();
        assert_eq!(j, coll);
        assert!(m.entries.is_empty());
    }
}

#[test]
fn first_registered_match_wins() {
    let table = table_of(&["/:x/b", "/a/:y"]);
    let (i, m) = table.find("/a/b").unwrap();
    assert_eq!(i, 0);
    assert_eq!(m.get("x").unwrap(), "a");
    assert!(table.find("/c/d").is_none());
}

#[test]
fn unmatched_path_is_404_without_body() {
    let table = table_of(&["/a"]);
    match table.route_request(request(Method::Get, "/nowhere")) {
        Dispatch::Respond(r) => {
            assert_eq!(r.status, 404);
            assert!(r.body.is_empty());
            assert!(r.headers.is_empty());
        }
        _ => panic!("expected a response"),
    }
}

#[test]
fn generate_routes_makes_collection_then_item() {
    let filters = vec![Filter::LinkAuthor(LinkAuthor)];
    let routes = generate_routes("/:version/search", "query", 7u8, &filters).unwrap();
    assert_eq!(routes.len(), 2);
    assert_eq!(routes[0].full_path(), "/:version/search");
    assert_eq!(routes[1].full_path(), "/:version/search/:query");
    assert_eq!(routes[1].handler, 7);
    assert_eq!(routes[1].filters.len(), 1);
    assert!(generate_routes("/:query", "query", 0u8, &filters).is_none());
}

#[test]
fn add_routes_appends_in_order() {
    let mut routes = generate_routes("/x", "id", 1u8, &vec![]).unwrap();
    add_routes(&mut routes, generate_routes("/y", "id", 2u8, &vec![]).unwrap());
    let paths: Vec<&str> = routes.iter().map(|r| r.full_path()).collect();
    assert_eq!(paths, vec!["/x", "/x/:id", "/y", "/y/:id"]);
}

fn search_table() -> RouteTable<u8> {
    let filters = vec![Filter::LinkSearch(SearchController)];
    let mut table = RouteTable::new();
    for r in generate_routes("/:version/search", "query", 0u8, &filters).unwrap() {
        table.register(r);
    }
    table
}

#[test]
fn post_with_id_is_refused_before_the_controller() {
    match search_table().route_request(request(Method::Post, "/1/search/5")) {
        Dispatch::Respond(r) => {
            assert_eq!(r.status, 404);
            assert!(r.body.is_empty());
        }
        _ => panic!("the controller must not run"),
    }
}

#[test]
fn put_without_id_is_refused_before_the_controller() {
    match search_table().route_request(request(Method::Put, "/1/search")) {
        Dispatch::Respond(r) => {
            assert_eq!(r.status, 404);
            assert!(r.body.is_empty());
        }
        _ => panic!("the controller must not run"),
    }
}

#[test]
fn methods_pick_operations() {
    let table = search_table();
    let cases = [
        (Method::Get, "/1/search?query=foo", Operation::Fetch),
        (Method::Post, "/1/search", Operation::Create),
        (Method::Put, "/1/search/3", Operation::Update),
        (Method::Delete, "/1/search/3", Operation::Delete),
    ];
    for (method, path, op) in cases {
        match table.route_request(request(method, path)) {
            Dispatch::Invoke { route, operation, .. } => {
                assert_eq!(operation, op);
                assert!(route < 2);
            }
            _ => panic!("expected an operation"),
        }
    }
    match table.route_request(request(Method::Other, "/1/search")) {
        Dispatch::Respond(r) => assert_eq!(r.status, 404),
        _ => panic!("no operation for this method"),
    }
}

#[test]
fn chain_stops_at_the_failing_filter() {
    let filters = vec![
        Filter::LinkAuthor(LinkAuthor),
        Filter::LinkSearch(SearchController),
        Filter::LinkAuthor(LinkAuthor),
    ];
    let mut params = ParamMap::new();
    params.insert("query".to_string(), "5".to_string());
    let (outcome, ran) = run_request_filters(&filters, request(Method::Post, "/1/search/5"), params);
    assert_eq!(ran, 2);
    match outcome {
        RequestFilterOutcome::Fail(r) => assert_eq!(r.status, 404),
        _ => panic!("expected a failure"),
    }
}

#[test]
fn chain_runs_every_filter_when_all_pass() {
    let filters = vec![Filter::LinkAuthor(LinkAuthor), Filter::LinkSearch(SearchController)];
    let (outcome, ran) = run_request_filters(&filters, request(Method::Get, "/1/search"), ParamMap::new());
    assert_eq!(ran, 2);
    assert!(matches!(outcome, RequestFilterOutcome::Pass(..)));
}

#[test]
fn complete_turns_failure_into_500() {
    let table = search_table();
    let r = table.complete(0, Err("database gone".to_string()));
    assert_eq!(r.status, 500);
    assert!(r.body.is_empty());
}
