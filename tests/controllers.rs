use flair::backend::{create_link, find_link_by_name, update_link};
use flair::filter::Filter;
use flair::http::{Method, ParamMap, Request, Response};
use flair::messages::{CreateLinkRequest, LinkModel, SearchResponse, UpdateLinkRequest};
use flair::registry::{self, HostRow, NewServiceInfo, HostInfo, RegistryStep, Statement};
use flair::route::{generate_routes, Dispatch, Operation, RouteTable};
use flair::search::{BackendCall, LinkRecord, SearchController, SearchStep};

fn body(r: &Response) -> String {
    String::from_utf8(r.body.clone()).unwrap()
}

fn search_table() -> RouteTable<u8> {
    let filters = vec![Filter::LinkSearch(SearchController)];
    let mut table = RouteTable::new();
    for r in generate_routes("/:version/search", "query", 0u8, &filters).unwrap() {
        table.register(r);
    }
    table
}

fn request(method: Method, path: &str, body: &str) -> Request {
    Request { method, path: path.to_string(), headers: vec![], body: body.as_bytes().to_vec() }
}

fn model(name: &str, url: &str, author: &str) -> LinkModel {
    LinkModel { name: name.to_string(), url: url.to_string(), author: author.to_string() }
}

fn decode_create(bytes: &[u8]) -> Result<CreateLinkRequest, String> {
    let v: serde_json::Value = serde_json::from_slice(bytes).map_err(|e| e.to_string())?;
    let field = |k: &str| v.get(k).and_then(|x| x.as_str()).map(String::from).ok_or(format!("missing field `{k}`"));
    Ok(CreateLinkRequest { model: LinkModel { name: field("name")?, url: field("url")?, author: field("author")? } })
}

#[test]
fn get_with_failed_lookup_is_404() {
    let table = search_table();
    let (route, params) = match table.route_request(request(Method::Get, "/1/search?query=foo", "")) {
        Dispatch::Invoke { route, operation: Operation::Fetch, params, .. } => (route, params),
        _ => panic!("expected a fetch"),
    };
    let c = SearchController::new();
    match c.get(&params) {
        SearchStep::Call(BackendCall::FindByName(n)) => assert_eq!(n, "foo"),
        _ => panic!("expected a lookup"),
    }
    let r = table.complete(route, Ok(c.found(None)));
    assert_eq!(r.status, 404);
    assert_eq!(body(&r), "null");
}

#[test]
fn get_without_name_is_400() {
    let c = SearchController::new();
    match c.get(&ParamMap::new()) {
        SearchStep::Respond(r) => {
            assert_eq!(r.status, 400);
            assert_eq!(body(&r), "null");
        }
        _ => panic!("expected a response"),
    }
}

#[test]
fn get_found_replies_with_flattened_link() {
    let c = SearchController::new();
    let r = c.found(Some(find_link_by_name("docs".to_string())));
    assert_eq!(r.status, 200);
    assert_eq!(body(&r), r#"{"id":0,"name":"docs","url":"","author":""}"#);
    assert_eq!(r.headers[0].name, "content-type");
    assert_eq!(r.headers[0].value, "application/json");
}

#[test]
fn post_creates_and_replies_200() {
    let table = search_table();
    let req = request(Method::Post, "/1/search", r#"{"name":"n","url":"u","author":"a"}"#);
    let (route, req) = match table.route_request(req) {
        Dispatch::Invoke { route, operation: Operation::Create, request, .. } => (route, request),
        _ => panic!("expected a create"),
    };
    let c = SearchController::new();
    let created = match c.post(decode_create(&req.body)) {
        SearchStep::Call(BackendCall::Create(m)) => create_link(m),
        _ => panic!("expected a backend call"),
    };
    let r = table.complete(route, Ok(c.created(Some(created))));
    assert_eq!(r.status, 200);
    assert_eq!(body(&r), r#"{"id":0,"name":"n","url":"u","author":"a"}"#);
}

#[test]
fn post_with_bad_payload_is_400() {
    let c = SearchController::new();
    match c.post(Err("expected value at line 1 column 1".to_string())) {
        SearchStep::Respond(r) => {
            assert_eq!(r.status, 400);
            assert_eq!(body(&r), r#"{"error":"Invalid Payload: expected value at line 1 column 1"}"#);
        }
        _ => panic!("expected a response"),
    }
}

#[test]
fn create_refused_by_backend_is_503() {
    let r = SearchController::new().created(None);
    assert_eq!(r.status, 503);
    assert_eq!(body(&r), r#"{"error":"Service unavailable: unable to create link at this time"}"#);
}

#[test]
fn put_with_non_numeric_id_is_400() {
    let table = search_table();
    let params = match table.route_request(request(Method::Put, "/1/search/abc", "{}")) {
        Dispatch::Invoke { operation: Operation::Update, params, .. } => params,
        _ => panic!("expected an update"),
    };
    let update = UpdateLinkRequest { name: None, url: None, author: None };
    match SearchController::new().put(&params, Ok(update)) {
        SearchStep::Respond(r) => {
            assert_eq!(r.status, 400);
            assert_eq!(body(&r), r#"{"error":"Bad Id: invalid digit found in string"}"#);
        }
        SearchStep::Call(_) => panic!("update must not run"),
    }
}

#[test]
fn put_with_numeric_id_updates() {
    let mut params = ParamMap::new();
    params.insert("query".to_string(), "42".to_string());
    let update = UpdateLinkRequest { name: Some("n".into()), url: Some("u".into()), author: Some("a".into()) };
    let c = SearchController::new();
    let rec = match c.put(&params, Ok(update)) {
        SearchStep::Call(BackendCall::Update(42, u)) => update_link(u),
        _ => panic!("expected an update call"),
    };
    let r = c.updated(Some(rec));
    assert_eq!(r.status, 200);
    assert_eq!(body(&r), r#"{"id":0,"name":"n","url":"u","author":"a"}"#);
    let r = c.updated(None);
    assert_eq!(r.status, 503);
    assert_eq!(body(&r), r#"{"error":"Service unavailable: unable to update link at this time"}"#);
}

#[test]
fn put_id_overflow_and_payload_errors() {
    let c = SearchController::new();
    let mut params = ParamMap::new();
    params.insert("query".to_string(), "18446744073709551616".to_string());
    match c.put(&params, Err("x".to_string())) {
        SearchStep::Respond(r) => assert_eq!(body(&r), r#"{"error":"Bad Id: number too large to fit in target type"}"#),
        _ => panic!(),
    }
    let mut params = ParamMap::new();
    params.insert("query".to_string(), "7".to_string());
    match c.put(&params, Err("eof".to_string())) {
        SearchStep::Respond(r) => {
            assert_eq!(r.status, 400);
            assert_eq!(body(&r), r#"{"error":"Invalid Payload: eof"}"#);
        }
        _ => panic!(),
    }
    match c.put(&ParamMap::new(), Err("eof".to_string())) {
        SearchStep::Respond(r) => assert_eq!(r.status, 404),
        _ => panic!(),
    }
}

#[test]
fn delete_is_404() {
    let r = SearchController::new().delete();
    assert_eq!(r.status, 404);
    assert!(r.body.is_empty());
}

#[test]
fn reply_parses_back_to_the_model() {
    let m = model("n \"q\"", "http://x/\\y", "a\nb\u{1}é");
    let reply = SearchResponse { id: 9, model: m.clone() }.to_json();
    let parsed = decode_create(reply.as_bytes()).unwrap();
    assert_eq!(parsed.model.name, m.name);
    assert_eq!(parsed.model.url, m.url);
    assert_eq!(parsed.model.author, m.author);
}

#[test]
fn repeated_get_gives_identical_bytes() {
    let c = SearchController::new();
    let a = c.found(Some(LinkRecord { id: 3, model: model("n", "u", "a") }));
    let b = c.found(Some(LinkRecord { id: 3, model: model("n", "u", "a") }));
    assert_eq!(a.body, b.body);
    assert_eq!(a.status, b.status);
}

#[test]
fn registry_get_lists_hosts_of_first_word() {
    let c = registry::SearchController::new();
    let mut params = ParamMap::new();
    params.insert("name".to_string(), "  web  extra".to_string());
    let name = match c.get(&params) {
        RegistryStep::Run(Statement::ListHosts(n)) => n,
        _ => panic!("expected a query"),
    };
    assert_eq!(name, "web");
    let rows = vec![
        HostRow { id: 1, ip: "10.0.0.1".into(), port: 80 },
        HostRow { id: 2, ip: "10.0.0.2".into(), port: 8080 },
    ];
    let r = c.hosts_listed(name, Ok(rows));
    assert_eq!(r.status, 200);
    assert_eq!(
        body(&r),
        r#"{"service_info":{"name":"web","hosts":[{"id":1,"ip":"10.0.0.1","port":80},{"id":2,"ip":"10.0.0.2","port":8080}]}}"#
    );
}

#[test]
fn registry_get_errors() {
    let c = registry::SearchController::new();
    match c.get(&ParamMap::new()) {
        RegistryStep::Respond(r) => {
            assert_eq!(r.status, 400);
            assert_eq!(body(&r), r#"{"error":"missing parameter: name"}"#);
        }
        _ => panic!(),
    }
    let mut params = ParamMap::new();
    params.insert("name".to_string(), " \t ".to_string());
    match c.get(&params) {
        RegistryStep::Respond(r) => {
            assert_eq!(r.status, 400);
            assert_eq!(body(&r), "{\"error\":\"invalid parameter name:  \\t \"}");
        }
        _ => panic!(),
    }
    let r = c.hosts_listed("web".into(), Ok(vec![]));
    assert_eq!(body(&r), r#"{"service_info":{"name":"web","hosts":[]}}"#);
    let r = c.hosts_listed("web".into(), Err("down".into()));
    assert_eq!(r.status, 500);
    assert!(r.body.is_empty());
    let r = c.hosts_listed("web".into(), Ok(vec![HostRow { id: -1, ip: "x".into(), port: 1 }]));
    assert_eq!(r.status, 500);
}

#[test]
fn registry_post_runs_three_statements() {
    let c = registry::SearchController::new();
    let info = NewServiceInfo { name: "web".into(), host_info: HostInfo { ip: "10.0.0.1".into(), port: 80 } };
    let info = match c.post(Ok(info)) {
        RegistryStep::Run(Statement::InsertService(i)) => i,
        _ => panic!(),
    };
    let (sid, sname, ip, port) = match c.service_inserted(info, Ok((5, "web".into()))) {
        RegistryStep::Run(Statement::InsertHost { service_id, service_name, ip, port }) => (service_id, service_name, ip, port),
        _ => panic!(),
    };
    assert_eq!((sid, sname.as_str(), ip.as_str(), port), (5, "web", "10.0.0.1", 80));
    match c.host_inserted(sname, Ok(())) {
        RegistryStep::Run(Statement::ListHosts(n)) => assert_eq!(n, "web"),
        _ => panic!(),
    }
}

#[test]
fn registry_post_failures() {
    let c = registry::SearchController::new();
    match c.post(Err("bad".into())) {
        RegistryStep::Respond(r) => {
            assert_eq!(r.status, 400);
            assert_eq!(body(&r), r#"{"error":"Invalid Payload: bad"}"#);
        }
        _ => panic!(),
    }
    let big = NewServiceInfo { name: "web".into(), host_info: HostInfo { ip: "h".into(), port: 40000 } };
    match c.service_inserted(big, Ok((5, "web".into()))) {
        RegistryStep::Respond(r) => assert_eq!(r.status, 500),
        _ => panic!(),
    }
    let info = NewServiceInfo { name: "web".into(), host_info: HostInfo { ip: "h".into(), port: 1 } };
    match c.service_inserted(info, Err("dup".into())) {
        RegistryStep::Respond(r) => assert_eq!(r.status, 500),
        _ => panic!(),
    }
    match c.host_inserted("web".into(), Err("x".into())) {
        RegistryStep::Respond(r) => assert_eq!(r.status, 500),
        _ => panic!(),
    }
    assert_eq!(c.not_found().status, 404);
}
