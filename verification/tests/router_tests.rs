use http_server::headers::Headers;
use http_server::httprequest::{HttpRequest, Method, Resource, Version};
use http_server::httpresponse::HttpResponse;
use http_server::router::{Handler, HandlerKind, Router};
use http_server::server::Server;

struct ApiEcho;
struct StaticEcho;
struct NotFoundEcho;

impl Handler for ApiEcho {
    fn handle(_req: &HttpRequest) -> HttpResponse {
        HttpResponse::new("200", None, Some("api".to_string()))
    }
}

impl Handler for StaticEcho {
    fn handle(_req: &HttpRequest) -> HttpResponse {
        HttpResponse::new("200", None, Some("static".to_string()))
    }
}

impl Handler for NotFoundEcho {
    fn handle(_req: &HttpRequest) -> HttpResponse {
        HttpResponse::new("404", None, None)
    }
}

fn request(method: Method, path: &str) -> HttpRequest {
    HttpRequest {
        method,
        version: Version::V1_1,
        resource: Resource::Path(path.to_string()),
        headers: Headers::new(),
        msg_body: String::new(),
    }
}

#[test]
fn get_api_path_selects_api_variant() {
    assert_eq!(
        Router::select(&request(Method::Get, "/api/anything")),
        HandlerKind::Api
    );
    assert_eq!(Router::select(&request(Method::Get, "/api")), HandlerKind::Api);
}

#[test]
fn get_other_path_selects_static_variant() {
    assert_eq!(
        Router::select(&request(Method::Get, "/anything-else")),
        HandlerKind::StaticPage
    );
    assert_eq!(
        Router::select(&request(Method::Get, "/greeting")),
        HandlerKind::StaticPage
    );
}

#[test]
fn non_get_selects_not_found_variant() {
    assert_eq!(
        Router::select(&request(Method::Post, "/api/anything")),
        HandlerKind::NotFound
    );
    assert_eq!(
        Router::select(&request(Method::Uninitialized, "/")),
        HandlerKind::NotFound
    );
}

#[test]
fn bare_slash_routes_to_static_without_error() {
    let req = request(Method::Get, "/");
    assert_eq!(Router::select(&req), HandlerKind::StaticPage);
}

#[test]
fn parsed_bare_slash_request_routes_to_static() {
    let req = HttpRequest::from(String::from("GET / HTTP\\1.1\r\n\r\n"));
    let mut sink: Vec<u8> = Vec::new();
    let kind = Router::route::<ApiEcho, StaticEcho, NotFoundEcho>(req, &mut sink);
    assert_eq!(kind, HandlerKind::StaticPage);
    let expected = "HTTP/1.1 200 OK\r\nContent-Type:text/html\r\nContent-Length: 6\r\n\r\nstatic";
    assert_eq!(sink, expected.as_bytes().to_vec());
}

#[test]
fn route_writes_selected_handler_response() {
    let mut sink: Vec<u8> = Vec::new();
    let kind =
        Router::route::<ApiEcho, StaticEcho, NotFoundEcho>(request(Method::Get, "/api/x"), &mut sink);
    assert_eq!(kind, HandlerKind::Api);
    let expected = "HTTP/1.1 200 OK\r\nContent-Type:text/html\r\nContent-Length: 3\r\n\r\napi";
    assert_eq!(sink, expected.as_bytes().to_vec());

    let mut sink2: Vec<u8> = Vec::new();
    let kind2 =
        Router::route::<ApiEcho, StaticEcho, NotFoundEcho>(request(Method::Post, "/x"), &mut sink2);
    assert_eq!(kind2, HandlerKind::NotFound);
    let expected2 = "HTTP/1.1 404 Not Found\r\nContent-Type:text/html\r\nContent-Length: 0\r\n\r\n";
    assert_eq!(sink2, expected2.as_bytes().to_vec());
}

#[test]
fn server_new_keeps_address() {
    let server = Server::new("127.0.0.1:3000");
    assert_eq!(server.socket_addr, "127.0.0.1:3000");
}
