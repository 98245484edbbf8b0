use saaba::app::{Dispatch, Route};
use saaba::static_files::{
    normalize_mount, on_index_entry, serve_file, similarity, url_starts_with, EntryKind,
    StaticAction,
};
use saaba::str_map::StrMap;
use saaba::{App, HTTPMethod, Request, Response};

fn request(method: HTTPMethod, url: &str) -> Request {
    Request { method, url: url.to_string(), headers: StrMap::new() }
}

fn done(d: Dispatch) -> Response {
    match d {
        Dispatch::Done(r) => r,
        Dispatch::Static(_) => panic!("expected a response"),
    }
}

fn assert_not_found_page(r: &Response) {
    let page = Response::not_found();
    assert_eq!(r.status, 404);
    assert_eq!(r.content, page.content);
    assert_eq!(r.headers.get("Content-Length"), Some(page.content.len().to_string()));
    assert_eq!(r.headers.entries().len(), 1);
}

fn body(r: &Response) -> String {
    String::from_utf8(r.content.clone()).unwrap()
}

fn sample_app() -> App {
    let mut app = App::new();
    app.route(HTTPMethod::GET, "/", |_req: Request| Response::html("home".to_string()));
    app.post("/submit", |req: Request| Response::html(format!("posted {}", req.url)));
    app.route_var(HTTPMethod::GET, "/var/{variable}", |_req: Request, v: StrMap| {
        Response::html(v.get("variable").unwrap_or_else(|| "not set".to_string()))
    });
    app.static_("/static", "./assets");
    app
}

#[test]
fn exact_route_returns_handler_result() {
    let app = sample_app();
    let r = done(app.find_response(request(HTTPMethod::GET, "/")));
    assert_eq!(r.status, 200);
    assert_eq!(body(&r), "home");
    let r = done(app.find_response(request(HTTPMethod::POST, "/submit")));
    assert_eq!(body(&r), "posted /submit");
    assert!(matches!(app.lookup(&request(HTTPMethod::GET, "/")), Route::Exact(0)));
}

#[test]
fn mismatched_method_falls_through() {
    let app = sample_app();
    assert!(matches!(app.lookup(&request(HTTPMethod::POST, "/")), Route::NotFound));
    let r = done(app.find_response(request(HTTPMethod::GET, "/submit")));
    assert_eq!(r.status, 404);
}

#[test]
fn later_registration_replaces_handler() {
    let mut app = App::new();
    app.get("/x", |_req: Request| Response::html("one".to_string()));
    app.get("/x", |_req: Request| Response::html("two".to_string()));
    assert!(matches!(app.lookup(&request(HTTPMethod::GET, "/x")), Route::Exact(0)));
    assert_eq!(body(&done(app.find_response(request(HTTPMethod::GET, "/x")))), "two");
}

#[test]
fn variable_route_receives_bound_value() {
    let app = sample_app();
    let r = done(app.find_response(request(HTTPMethod::GET, "/var/42")));
    assert_eq!(body(&r), "42");
    match app.lookup(&request(HTTPMethod::GET, "/var/42")) {
        Route::Var(0, vars) => assert_eq!(vars.get("variable"), Some("42".to_string())),
        _ => panic!("expected the variable route"),
    }
}

#[test]
fn variable_route_does_not_span_segments() {
    let app = sample_app();
    let r = done(app.find_response(request(HTTPMethod::GET, "/var/a/b")));
    assert_eq!(r.status, 404);
}

#[test]
fn exact_route_wins_over_variable_route() {
    let mut app = sample_app();
    app.get("/var/special", |_req: Request| Response::html("exact".to_string()));
    assert_eq!(body(&done(app.find_response(request(HTTPMethod::GET, "/var/special")))), "exact");
}

#[test]
fn first_registered_variable_route_wins() {
    let mut app = App::new();
    app.get_var("/p/{a}", |_req: Request, _v: StrMap| Response::html("first".to_string()));
    app.get_var("/p/{b}", |_req: Request, _v: StrMap| Response::html("second".to_string()));
    app.post_var("/p/{c}", |_req: Request, _v: StrMap| Response::html("post".to_string()));
    assert_eq!(body(&done(app.find_response(request(HTTPMethod::GET, "/p/1")))), "first");
    assert_eq!(body(&done(app.find_response(request(HTTPMethod::POST, "/p/1")))), "post");
}

#[test]
fn unregistered_path_is_not_found() {
    let app = sample_app();
    let r = done(app.find_response(request(HTTPMethod::GET, "/nowhere")));
    assert_not_found_page(&r);
    assert!(!r.content.is_empty());
    assert!(body(&r).contains("Not Found"));
    let empty = App::default();
    let r = done(empty.find_response(request(HTTPMethod::DELETE, "/")));
    assert_eq!(r.status, 404);
}

#[test]
fn static_file_is_served() {
    let app = sample_app();
    let lookup = match app.find_response(request(HTTPMethod::GET, "/static/a.txt")) {
        Dispatch::Static(l) => l,
        Dispatch::Done(_) => panic!("expected a static lookup"),
    };
    assert_eq!(lookup.url, "/static/a.txt");
    assert_eq!(lookup.path, "./assets/a.txt");
    let path = match lookup.on_entry(EntryKind::File) {
        StaticAction::Read(p) => p,
        _ => panic!("expected a read"),
    };
    assert_eq!(path, "./assets/a.txt");
    let r = serve_file(&path, Some(b"file bytes".to_vec()));
    assert_eq!(r.status, 200);
    assert_eq!(r.headers.get("Content-Type"), Some("text/plain".to_string()));
    assert_eq!(r.headers.get("Content-Length"), Some("10".to_string()));
    assert_eq!(r.content, b"file bytes".to_vec());
}

#[test]
fn static_directory_without_slash_redirects() {
    let app = sample_app();
    let lookup = match app.find_response(request(HTTPMethod::GET, "/static/sub")) {
        Dispatch::Static(l) => l,
        Dispatch::Done(_) => panic!("expected a static lookup"),
    };
    assert_eq!(lookup.path, "./assets/sub");
    match lookup.on_entry(EntryKind::Dir) {
        StaticAction::Respond(r) => {
            assert_eq!(r.status, 307);
            assert_eq!(r.headers.get("Location"), Some("/static/sub/".to_string()));
        }
        _ => panic!("expected a redirect"),
    }
}

#[test]
fn static_directory_with_slash_serves_index() {
    let app = sample_app();
    let lookup = match app.lookup(&request(HTTPMethod::GET, "/static/sub/")) {
        Route::Static(l) => l,
        _ => panic!("expected a static lookup"),
    };
    let index = match lookup.on_entry(EntryKind::Dir) {
        StaticAction::Probe(p) => p,
        _ => panic!("expected an index probe"),
    };
    assert_eq!(index, "./assets/sub/index.html");
    assert!(matches!(on_index_entry(&index, EntryKind::File), StaticAction::Read(_)));
    match on_index_entry(&index, EntryKind::Missing) {
        StaticAction::Respond(r) => assert_not_found_page(&r),
        _ => panic!("expected 404"),
    }
    let r = serve_file(&index, Some(b"<p>index</p>".to_vec()));
    assert_eq!(r.headers.get("Content-Type"), Some("text/html".to_string()));
}

#[test]
fn missing_static_path_is_not_found() {
    let app = sample_app();
    let lookup = match app.lookup(&request(HTTPMethod::GET, "/static/none.txt")) {
        Route::Static(l) => l,
        _ => panic!("expected a static lookup"),
    };
    match lookup.on_entry(EntryKind::Missing) {
        StaticAction::Respond(r) => assert_not_found_page(&r),
        _ => panic!("expected 404"),
    }
    assert_not_found_page(&serve_file("./assets/x.bin", None));
    let r = serve_file("./assets/README", Some(vec![1, 2]));
    assert_eq!(r.headers.get("Content-Type"), None);
}

#[test]
fn static_prefix_respects_segments() {
    let app = sample_app();
    assert!(matches!(app.lookup(&request(HTTPMethod::GET, "/staticfoo")), Route::NotFound));
    assert!(url_starts_with("/static/a", "/static"));
    assert!(url_starts_with("/static", "/static"));
    assert!(!url_starts_with("/staticfoo", "/static"));
    assert!(url_starts_with("/anything", "/"));
}

#[test]
fn most_specific_mount_wins() {
    let mut app = App::new();
    app.static_("/", "./public");
    app.static_("/static", "./assets");
    app.static_("/static/img", "./images");
    let path = |url: &str| match app.lookup(&request(HTTPMethod::GET, url)) {
        Route::Static(l) => l.path,
        _ => panic!("expected a static lookup"),
    };
    assert_eq!(path("/static/img/logo.png"), "./images/logo.png");
    assert_eq!(path("/static/a.css"), "./assets/a.css");
    assert_eq!(path("/x.css"), "./public/x.css");
}

#[test]
fn mount_prefixes_are_normalised() {
    assert_eq!(normalize_mount("static/"), "/static");
    assert_eq!(normalize_mount("/static///"), "/static");
    assert_eq!(normalize_mount("/"), "/");
    assert_eq!(normalize_mount(""), "/");
    let mut app = App::new();
    app.static_("files/", "./one");
    app.static_("/files", "./two");
    match app.lookup(&request(HTTPMethod::GET, "/files/a")) {
        Route::Static(l) => assert_eq!(l.path, "./two/a"),
        _ => panic!("expected a static lookup"),
    }
}

#[test]
fn similarity_counts_shared_segments() {
    assert_eq!(similarity("/static/a.txt", "/static"), 2);
    assert_eq!(similarity("/static/a.txt", "/"), 1);
    assert_eq!(similarity("/a/b/c", "/a/b/c"), 4);
    assert_eq!(similarity("/a", "/b"), 1);
}

#[test]
fn variable_route_outranks_static_mount() {
    let mut app = App::new();
    app.get_var("/static/{f}", |_req: Request, _v: StrMap| Response::from_status(202));
    app.static_("/static", "./assets");
    assert_eq!(done(app.find_response(request(HTTPMethod::GET, "/static/readme"))).status, 202);
}

#[test]
fn exact_route_outranks_variable_route_in_response() {
    let mut app = App::new();
    app.route(HTTPMethod::GET, "/var/1", |_req: Request| Response::from_status(201));
    app.route_var(HTTPMethod::GET, "/var/{v}", |_req: Request, _v: StrMap| Response::from_status(299));
    assert_eq!(done(app.find_response(request(HTTPMethod::GET, "/var/1"))).status, 201);
}
