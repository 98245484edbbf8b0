use saaba::header::Header;
use saaba::response_code::{status_text, ResponseCode};
use saaba::str_map::StrMap;
use saaba::text::decimal_string;
use saaba::utils::construct_message;
use saaba::Response;

fn text(bytes: &[u8]) -> String {
    String::from_utf8(bytes.to_vec()).unwrap()
}

#[test]
fn decimal_renders_numbers() {
    assert_eq!(decimal_string(0), "0");
    assert_eq!(decimal_string(7), "7");
    assert_eq!(decimal_string(1234), "1234");
    assert_eq!(decimal_string(u64::MAX), "18446744073709551615");
}

#[test]
fn str_map_keeps_keys_sorted_and_replaces() {
    let mut m = StrMap::new();
    m.insert("b", "2");
    m.insert("a", "1");
    m.insert("c", "3");
    m.insert("b", "two");
    let keys: Vec<&str> = m.entries().iter().map(|e| e.0.as_str()).collect();
    assert_eq!(keys, vec!["a", "b", "c"]);
    assert_eq!(m.get("b"), Some("two".to_string()));
    assert_eq!(m.get("z"), None);
    assert!(m.contains_key("a"));
    assert!(!m.contains_key("A"));
}

#[test]
fn status_codes_and_reasons() {
    assert_eq!(ResponseCode::from_code(404), Some(ResponseCode::NotFound));
    assert_eq!(ResponseCode::NotFound.code(), 404);
    assert_eq!(ResponseCode::NotFound.reason(), "Not Found");
    assert_eq!(u32::from(ResponseCode::TemporaryRedirect), 307);
    assert_eq!(ResponseCode::from_code(999), None);
    assert_eq!(ResponseCode::from_code(226), Some(ResponseCode::IMUsed));
    assert_eq!(status_text(200), "OK");
    assert_eq!(status_text(999), "");
}

#[test]
fn new_response_builds_status_line_and_blank_line() {
    let r = Response::new();
    assert_eq!(text(&r.build()), "HTTP/1.1 200 OK\r\n\r\n");
}

#[test]
fn unknown_status_has_empty_reason() {
    let r = Response::from_status(599);
    assert_eq!(text(&r.build()), "HTTP/1.1 599 \r\n\r\n");
}

#[test]
fn bytevec_round_trip() {
    let body = vec![0u8, 159, 146, 150, b'x'];
    let r = Response::from_content_bytevec(body.clone());
    assert_eq!(r.status, 200);
    assert_eq!(r.headers.get("Content-Length"), Some("5".to_string()));
    let out = r.build();
    let mut expected = b"HTTP/1.1 200 OK\r\nContent-Length: 5\r\n\r\n".to_vec();
    expected.extend_from_slice(&body);
    assert_eq!(out, expected);
    assert!(out.ends_with(&body));
}

#[test]
fn empty_body_round_trip() {
    let out = Response::from_content_bytevec(Vec::new()).build();
    assert_eq!(text(&out), "HTTP/1.1 200 OK\r\nContent-Length: 0\r\n\r\n");
}

#[test]
fn header_order_does_not_change_bytes() {
    let a = Response::new().with_header("X-One", "1").with_header("A-Two", "2");
    let b = Response::new().with_header("A-Two", "2").with_header("X-One", "1");
    let out_a = a.build();
    assert_eq!(out_a, b.build());
    assert_eq!(text(&out_a), "HTTP/1.1 200 OK\r\nA-Two: 2\r\nX-One: 1\r\n\r\n");
}

#[test]
fn string_content_counts_bytes() {
    let r = Response::from_content_string("héllo".to_string());
    assert_eq!(r.headers.get("Content-Length"), Some("6".to_string()));
    assert_eq!(r.content, "héllo".as_bytes().to_vec());
}

#[test]
fn html_sets_content_type() {
    let r = Response::html("<b>hi</b>".to_string());
    assert_eq!(r.status, 200);
    assert_eq!(r.headers.get("Content-Type"), Some("text/html".to_string()));
    assert_eq!(
        text(&r.build()),
        "HTTP/1.1 200 OK\r\nContent-Length: 9\r\nContent-Type: text/html\r\n\r\n<b>hi</b>"
    );
}

#[test]
fn not_found_page_names_status() {
    let r = Response::not_found();
    assert_eq!(r.status, 404);
    let body = text(&r.content);
    assert!(!body.is_empty());
    assert!(body.contains("Not Found"));
    assert_eq!(body, "<center><h1>Not Found</h1><hr><span>saaba</span></center>");
    assert_eq!(r.headers.get("Content-Length"), Some(body.len().to_string()));
    assert!(text(&r.build()).starts_with("HTTP/1.1 404 Not Found\r\n"));
}

#[test]
fn redirect_sets_location() {
    let r = Response::redirect("/static/sub/");
    assert_eq!(r.status, 307);
    assert_eq!(r.headers.get("Location"), Some("/static/sub/".to_string()));
    assert_eq!(
        text(&r.build()),
        "HTTP/1.1 307 Temporary Redirect\r\nLocation: /static/sub/\r\n\r\n"
    );
}

#[test]
fn setters_and_builders() {
    let mut r = Response::new();
    r.set_status(201);
    r.set_header(Header::ContentType.as_str(), "text/plain");
    r.set_content(b"abc".to_vec());
    assert_eq!(r.status, 201);
    assert_eq!(r.headers.get("Content-Length"), Some("3".to_string()));
    let r = r.with_status(202).with_content(b"abcd".to_vec());
    assert_eq!(r.status, 202);
    assert_eq!(r.headers.get("Content-Length"), Some("4".to_string()));
    assert_eq!(
        text(&r.build()),
        "HTTP/1.1 202 Accepted\r\nContent-Length: 4\r\nContent-Type: text/plain\r\n\r\nabcd"
    );
}

#[test]
fn read_result_gives_ok_or_server_error() {
    let ok = Response::from_read(Some(b"data".to_vec()));
    assert_eq!(ok.status, 200);
    assert_eq!(ok.content, b"data".to_vec());
    let failed = Response::from_read(None);
    assert_eq!(failed.status, 500);
    assert!(failed.content.is_empty());
}

#[test]
fn message_page_wraps_text() {
    assert_eq!(
        construct_message("Hi".to_string()),
        "<center><h1>Hi</h1><hr><span>saaba</span></center>"
    );
}

#[test]
fn conversions_build_content_responses() {
    let r = Response::from(vec![1u8, 2, 3]);
    assert_eq!(r.status, 200);
    assert_eq!(r.content, vec![1, 2, 3]);
    assert_eq!(r.headers.get("Content-Length"), Some("3".to_string()));
    let r = Response::from("h\u{e9}".to_string());
    assert_eq!(r.headers.get("Content-Length"), Some("3".to_string()));
    let r: Response = "abc".into();
    assert_eq!(r.content, b"abc".to_vec());
}
