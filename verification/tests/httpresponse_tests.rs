use http_server::headers::Headers;
use http_server::httpresponse::HttpResponse;

#[test]
fn test_response_struct_creation_200() {
    let response_actual = HttpResponse::new("200", None, Some("xxxx".into()));
    let response_expected = HttpResponse {
        version: "HTTP/1.1".to_string(),
        status_code: "200".to_string(),
        status_text: "OK".to_string(),
        headers: {
            let mut h = Headers::new();
            h.insert("Content-Type".into(), "text/html".into());
            Some(h)
        },
        body: Some("xxxx".into()),
    };
    assert_eq!(response_actual, response_expected);
}

#[test]
fn test_response_struct_creation_404() {
    let response_actual = HttpResponse::new("404", None, Some("xxxx".into()));
    let response_expected = HttpResponse {
        version: "HTTP/1.1".to_string(),
        status_code: "404".to_string(),
        status_text: "Not Found".to_string(),
        headers: {
            let mut h = Headers::new();
            h.insert("Content-Type".into(), "text/html".into());
            Some(h)
        },
        body: Some("xxxx".into()),
    };
    assert_eq!(response_actual, response_expected);
}

#[test]
fn test_http_response_creation() {
    let response_expected = HttpResponse {
        version: "HTTP/1.1".to_string(),
        status_code: "404".to_string(),
        status_text: "Not Found".to_string(),
        headers: {
            let mut h = Headers::new();
            h.insert("Content-Type".into(), "text/html".into());
            Some(h)
        },
        body: Some("xxxx".into()),
    };
    let http_string: String = response_expected.to_wire();
    let actual_string =
        "HTTP/1.1 404 Not Found\r\nContent-Type:text/html\r\nContent-Length: 4\r\n\r\nxxxx"
            .to_string();
    assert_eq!(http_string, actual_string);
}

#[test]
fn build_404_serializes_exactly() {
    let wire = HttpResponse::new("404", None, Some("xxxx".into())).to_wire();
    assert_eq!(
        wire,
        "HTTP/1.1 404 Not Found\r\nContent-Type:text/html\r\nContent-Length: 4\r\n\r\nxxxx"
    );
}

#[test]
fn status_text_lookup_is_total() {
    assert_eq!(HttpResponse::new("200", None, None).status_text(), "OK");
    assert_eq!(HttpResponse::new("400", None, None).status_text(), "Bad Request");
    assert_eq!(HttpResponse::new("404", None, None).status_text(), "Not Found");
    assert_eq!(
        HttpResponse::new("500", None, None).status_text(),
        "Internal Server Error"
    );
    assert_eq!(HttpResponse::new("999", None, None).status_text(), "Not Found");
    assert_eq!(HttpResponse::new("", None, None).status_text(), "Not Found");
}

#[test]
fn absent_body_serializes_with_zero_content_length() {
    let wire = HttpResponse::new("200", None, None).to_wire();
    assert_eq!(
        wire,
        "HTTP/1.1 200 OK\r\nContent-Type:text/html\r\nContent-Length: 0\r\n\r\n"
    );
}

#[test]
fn content_length_is_computed_not_taken_from_headers() {
    let mut h = Headers::new();
    h.insert("Content-Length".to_string(), "999".to_string());
    let wire = HttpResponse::new("200", Some(h), Some("abc".into())).to_wire();
    assert_eq!(
        wire,
        "HTTP/1.1 200 OK\r\nContent-Length:999\r\nContent-Length: 3\r\n\r\nabc"
    );
}

#[test]
fn content_length_counts_bytes_in_decimal() {
    let wire = HttpResponse::new("200", None, Some("0123456789".into())).to_wire();
    assert_eq!(
        wire,
        "HTTP/1.1 200 OK\r\nContent-Type:text/html\r\nContent-Length: 10\r\n\r\n0123456789"
    );
}

#[test]
fn caller_headers_are_used_unmodified() {
    let mut h = Headers::new();
    h.insert("X-One".to_string(), "1".to_string());
    h.insert("X-Two".to_string(), "2".to_string());
    let resp = HttpResponse::new("200", Some(h), None);
    assert_eq!(resp.headers(), "X-One:1\r\nX-Two:2\r\n");
}

#[test]
fn send_response_appends_wire_bytes() {
    let resp = HttpResponse::new("404", None, Some("xxxx".into()));
    let mut sink: Vec<u8> = vec![1, 2];
    resp.send_response(&mut sink);
    let mut expected: Vec<u8> = vec![1, 2];
    expected.extend_from_slice(
        "HTTP/1.1 404 Not Found\r\nContent-Type:text/html\r\nContent-Length: 4\r\n\r\nxxxx"
            .as_bytes(),
    );
    assert_eq!(sink, expected);
}

#[test]
fn headers_map_insert_and_get() {
    let mut h = Headers::new();
    assert_eq!(h.len(), 0);
    assert!(h.get("Host").is_none());
    h.insert("Host".to_string(), "a".to_string());
    h.insert("Host".to_string(), "b".to_string());
    assert_eq!(h.len(), 1);
    assert_eq!(h.get("Host").unwrap().as_str(), "b");
}
