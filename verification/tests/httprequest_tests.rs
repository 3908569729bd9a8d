use http_server::headers::Headers;
use http_server::httprequest::{process_header_line, process_req_line, HttpRequest, Method, ParseError, Resource, Version};

#[test]
fn test_method_into() {
    let m: Method = Method::from("GET");
    assert_eq!(m, Method::Get);
}

#[test]
fn test_version_into() {
    let v: Version = Version::from("HTTP\\1.1");
    assert_eq!(v, Version::V1_1);
}

#[test]
fn test_read_http() {
    let s: String = String::from(
        "GET /greeting HTTP/1.1\r\nHost: localhost:3000\r\nUser_Agent: curl/7.71.1\r\nAccept: */*\r\n\r\n",
    );
    let mut headers_expected: Headers = Headers::new();
    headers_expected.insert("Host".into(), " localhost".into());
    headers_expected.insert("Accept".into(), " */*".into());
    headers_expected.insert("User-Agent".into(), " curl/7.71.1".into());
    let req: HttpRequest = HttpRequest::from(s);
    assert_eq!(Method::Get, req.method);
}

#[test]
fn method_parsing_is_total() {
    assert_eq!(Method::from("GET"), Method::Get);
    assert_eq!(Method::from("POST"), Method::Post);
    assert_eq!(Method::from("PUT"), Method::Uninitialized);
    assert_eq!(Method::from("get"), Method::Uninitialized);
    assert_eq!(Method::from(""), Method::Uninitialized);
}

#[test]
fn version_parsing_recognizes_one_token() {
    assert_eq!(Version::from("HTTP\\1.1"), Version::V1_1);
    assert_eq!(Version::from("HTTP/1.1"), Version::Uninitialized);
    assert_eq!(Version::from("HTTP/2.0"), Version::Uninitialized);
    assert_eq!(Version::from(""), Version::Uninitialized);
}

#[test]
fn parse_full_request_with_headers() {
    let s = String::from("GET /greeting HTTP\\1.1\r\nHost: localhost:3000\r\nAccept: */*\r\n\r\n");
    let req = HttpRequest::from(s);
    assert_eq!(req.method, Method::Get);
    assert_eq!(req.version, Version::V1_1);
    assert_eq!(req.resource, Resource::Path("/greeting".to_string()));
    assert_eq!(req.headers.get("Host").unwrap().as_str(), " localhost:3000");
    assert_eq!(req.headers.get("Accept").unwrap().as_str(), " */*");
    assert_eq!(req.msg_body.as_str(), "");
}

#[test]
fn parse_empty_input_yields_defaults() {
    let req = HttpRequest::from(String::new());
    assert_eq!(req.method, Method::Uninitialized);
    assert_eq!(req.version, Version::Uninitialized);
    assert_eq!(req.resource, Resource::Path(String::new()));
    assert_eq!(req.headers.len(), 0);
    assert_eq!(req.msg_body.as_str(), "");
}

#[test]
fn parse_short_request_line_leaves_defaults() {
    let req = HttpRequest::from(String::from("HTTP\r\n\r\n"));
    assert_eq!(req.method, Method::Uninitialized);
    assert_eq!(req.version, Version::Uninitialized);
    assert_eq!(req.resource, Resource::Path(String::new()));
}

#[test]
fn process_req_line_reads_three_tokens() {
    let (m, res, v) = process_req_line("GET /greeting HTTP\\1.1").unwrap();
    assert_eq!(m, Method::Get);
    assert_eq!(res, Resource::Path("/greeting".to_string()));
    assert_eq!(v, Version::V1_1);
    assert!(process_req_line("GET HTTP").is_none());

    let (k, val) = process_header_line("Host: localhost:3000");
    assert_eq!(k, "Host");
    assert_eq!(val, " localhost:3000");
    let (k2, val2) = process_header_line("no-colon-here");
    assert_eq!(k2, "no-colon-here");
    assert_eq!(val2, "");
}

#[test]
fn strict_mode_surfaces_malformed_request_line() {
    let r = HttpRequest::from_strict(String::from("HTTP\r\n\r\n"));
    assert_eq!(r.unwrap_err(), ParseError::MalformedRequestLine);
}

#[test]
fn strict_mode_accepts_well_formed_input() {
    let r = HttpRequest::from_strict(String::from("GET / HTTP\\1.1\r\n\r\n"));
    let req = r.unwrap();
    assert_eq!(req.method, Method::Get);
    assert_eq!(req.version, Version::V1_1);

    let empty = HttpRequest::from_strict(String::new());
    assert!(empty.is_ok());
}

#[test]
fn last_body_line_wins() {
    let req = HttpRequest::from(String::from("hello\r\nworld\r\n"));
    assert_eq!(req.msg_body.as_str(), "world");
}

#[test]
fn header_value_keeps_text_after_first_colon() {
    let req = HttpRequest::from(String::from("Referer: https://example.test/a\r\n"));
    assert_eq!(
        req.headers.get("Referer").unwrap().as_str(),
        " https://example.test/a"
    );
}

#[test]
fn duplicate_header_keys_overwrite() {
    let req = HttpRequest::from(String::from("Accept: one\r\nAccept: two\r\n"));
    assert_eq!(req.headers.len(), 1);
    assert_eq!(req.headers.get("Accept").unwrap().as_str(), " two");
}
