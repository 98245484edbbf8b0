use saaba::http_method::HTTPMethod;
use saaba::mime::guess_mime;
use saaba::request::{add_header, parse_headers, parse_request, RequestError};
use saaba::str_map::StrMap;
use saaba::template::{compile_template, match_template};
use saaba::Request;

#[test]
fn method_parsing_ignores_case() {
    assert_eq!(HTTPMethod::parse("get").ok(), Some(HTTPMethod::GET));
    assert_eq!(HTTPMethod::parse("PoSt").ok(), Some(HTTPMethod::POST));
    assert_eq!(HTTPMethod::parse("TRACE").ok(), Some(HTTPMethod::TRACE));
    assert_eq!(HTTPMethod::CONFIG.as_str(), "CONFIG");
    assert_eq!(HTTPMethod::default(), HTTPMethod::GET);
}

#[test]
fn unknown_method_is_an_error() {
    let e = HTTPMethod::parse("FETCH").unwrap_err();
    assert_eq!(e.method(), "FETCH");
    assert_eq!(e.message(), "Failed to convert method: `FETCH`");
    let e = HTTPMethod::parse("foo").unwrap_err();
    assert_eq!(e.method(), "FOO");
    assert_eq!(e.message(), "Failed to convert method: `FOO`");
    assert_eq!(HTTPMethod::parse("caf\u{e9}-x").unwrap_err().method(), "CAF\u{c9}-X");
    assert_eq!(HTTPMethod::parse("stra\u{df}e").unwrap_err().method(), "STRASSE");
    assert!(HTTPMethod::parse("").is_err());
    assert!(HTTPMethod::parse("GETS").is_err());
}

#[test]
fn mime_from_extension() {
    assert_eq!(guess_mime("./assets/a.txt"), Some("text/plain".to_string()));
    assert_eq!(guess_mime("archive.tar.gz"), Some("application/gzip".to_string()));
    assert_eq!(guess_mime("index.html"), Some("text/html".to_string()));
    assert_eq!(guess_mime("./assets/README"), None);
    assert_eq!(guess_mime("file.unknownext"), None);
    assert_eq!(guess_mime("trailingdot."), None);
}

#[test]
fn template_compiles_to_anchored_pattern() {
    let c = compile_template("/var/{variable}");
    assert_eq!(c.pattern, "^/var/([0-9A-Za-z_]+)$");
    assert_eq!(c.names, vec!["variable".to_string()]);
    let c = compile_template("/a.b/{x}-{y}/{}");
    assert_eq!(c.pattern, "^/a\\.b/([0-9A-Za-z_]+)\\-([0-9A-Za-z_]+)/\\{\\}$");
    assert_eq!(c.names, vec!["x".to_string(), "y".to_string()]);
}

#[test]
fn variable_template_binds_segment() {
    let vars = match_template("/var/{variable}", "/var/42").unwrap();
    assert_eq!(vars.get("variable"), Some("42".to_string()));
    assert_eq!(vars.entries().len(), 1);
}

#[test]
fn placeholder_never_crosses_slash() {
    assert!(match_template("/var/{variable}", "/var/a/b").is_none());
    assert!(match_template("/var/{variable}", "/var/").is_none());
    assert!(match_template("/var/{variable}", "/x/var/1").is_none());
}

#[test]
fn literal_characters_match_literally() {
    assert!(match_template("/a.b/{x}", "/aXb/1").is_none());
    let vars = match_template("/a.b/{x}", "/a.b/1").unwrap();
    assert_eq!(vars.get("x"), Some("1".to_string()));
}

#[test]
fn two_placeholders_bind_in_order() {
    let vars = match_template("/u/{user}/p/{post}", "/u/ann/p/7").unwrap();
    assert_eq!(vars.get("user"), Some("ann".to_string()));
    assert_eq!(vars.get("post"), Some("7".to_string()));
}

#[test]
fn repeated_name_keeps_later_value() {
    let vars = match_template("/{id}/{id}", "/first/second").unwrap();
    assert_eq!(vars.get("id"), Some("second".to_string()));
}

#[test]
fn header_lines_parse() {
    let h = parse_headers(vec![
        "Host: localhost:8080".to_string(),
        "Accept:text/html".to_string(),
        "not a header".to_string(),
        "X-Dup: 1".to_string(),
        "X-Dup: 2".to_string(),
    ]);
    assert_eq!(h.get("Host"), Some("localhost:8080".to_string()));
    assert_eq!(h.get("Accept"), Some("text/html".to_string()));
    assert_eq!(h.get("X-Dup"), Some("2".to_string()));
    assert_eq!(h.entries().len(), 3);
}

#[test]
fn request_line_parses() {
    let lines = vec![
        "get /static/a.txt?v=1 HTTP/1.1".to_string(),
        "Host: example".to_string(),
    ];
    let req = match parse_request(&lines) {
        Ok(r) => r,
        Err(_) => panic!("request should parse"),
    };
    assert_eq!(req.method, HTTPMethod::GET);
    assert_eq!(req.url, "/static/a.txt");
    assert_eq!(req.headers.get("Host"), Some("example".to_string()));
}

#[test]
fn request_errors() {
    assert!(matches!(parse_request(&Vec::new()), Err(RequestError::Empty)));
    assert!(matches!(parse_request(&vec!["GET".to_string()]), Err(RequestError::Malformed)));
    match parse_request(&vec!["BREW /pot HTTP/1.1".to_string()]) {
        Err(RequestError::UnknownMethod(e)) => assert_eq!(e.method(), "BREW"),
        _ => panic!("expected an unknown method"),
    }
}

#[test]
fn default_request() {
    let r = Request::new();
    assert_eq!(r.method, HTTPMethod::GET);
    assert_eq!(r.url, "");
    assert!(r.headers.entries().is_empty());
}

#[test]
fn meta_characters_in_templates_are_literal() {
    let vars = match_template("/a-{x}/{}", "/a-1/{}").unwrap();
    assert_eq!(vars.get("x"), Some("1".to_string()));
    assert!(match_template("/a+{x}", "/aa1").is_none());
    assert!(match_template("/a+{x}", "/a+1").is_some());
    assert!(match_template("/(x)|{y}", "/(x)|z").is_some());
}

#[test]
fn placeholder_takes_ascii_word_characters_only() {
    assert!(match_template("/v/{x}", "/v/caf\u{e9}").is_none());
    assert!(match_template("/v/{x}", "/v/a_B9").is_some());
}

#[test]
fn request_clone_keeps_fields() {
    let lines = vec!["POST /x HTTP/1.1".to_string(), "A: b".to_string()];
    let req = parse_request(&lines).unwrap();
    let copy = req.clone();
    assert_eq!(copy.method, HTTPMethod::POST);
    assert_eq!(copy.url, "/x");
    assert_eq!(copy.headers.get("A"), Some("b".to_string()));
}

#[test]
fn captured_groups_add_a_header() {
    let mut h = StrMap::new();
    add_header(&mut h, Some(vec!["Host".to_string(), "example".to_string()]));
    add_header(&mut h, None);
    add_header(&mut h, Some(vec!["Only".to_string()]));
    assert_eq!(h.get("Host"), Some("example".to_string()));
    assert_eq!(h.entries().len(), 1);
}

#[test]
fn unknown_method_in_request_line_is_upper_cased() {
    match parse_request(&vec!["brew /pot HTTP/1.1".to_string()]) {
        Err(RequestError::UnknownMethod(e)) => assert_eq!(e.method(), "BREW"),
        _ => panic!("expected an unknown method"),
    }
}

#[test]
fn unicode_upper_case_can_spell_a_method() {
    assert_eq!(HTTPMethod::parse("po\u{17f}t").ok(), Some(HTTPMethod::POST));
}

#[test]
fn try_from_parses_like_parse() {
    assert_eq!(HTTPMethod::try_from("head").ok(), Some(HTTPMethod::HEAD));
    assert_eq!(HTTPMethod::try_from("Delete".to_string()).ok(), Some(HTTPMethod::DELETE));
    let e = HTTPMethod::try_from("foo").unwrap_err();
    assert_eq!(e.message(), "Failed to convert method: `FOO`");
}
