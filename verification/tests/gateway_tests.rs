use voxworld_web::gateway::{
    content_type, file_response, is_websocket_handshake, is_websocket_request, rejection_response,
    relay_step, request_head_complete, request_path, response_head, route_request_bytes,
    static_file_path, static_route, FileRead, RelayMessage, RelayStep, StaticRoute,
};
use voxworld_web::gateway::{
    admit_play_session, health_response, http_route, http_route_bytes, is_play_request,
    play_refused_response, play_user_name, status_response, upgrade_route, upgrade_route_bytes,
    web_session_limit, HttpRoute, UpgradeRoute, DEFAULT_WEB_SESSION_LIMIT,
};
use voxworld_web::text::decimal_string;

#[test]
fn websocket_upgrade_on_ws_is_recognised() {
    let head = "GET /ws HTTP/1.1\r\nHost: localhost\r\nUpgrade: websocket\r\nConnection: Upgrade\r\n\r\n";
    assert!(is_websocket_request(head));
}

#[test]
fn websocket_header_is_matched_ignoring_case() {
    assert!(is_websocket_request("GET /ws HTTP/1.1\nUPGRADE: WebSocket\n"));
}

#[test]
fn websocket_needs_upgrade_header() {
    assert!(!is_websocket_request("GET /ws HTTP/1.1\r\nHost: x\r\n\r\n"));
}

#[test]
fn websocket_needs_ws_path() {
    assert!(!is_websocket_request("GET /play HTTP/1.1\r\nupgrade: websocket\r\n"));
    assert!(!is_websocket_request("GET /wss HTTP/1.1\r\nupgrade: websocket\r\n"));
    assert!(!is_websocket_request("POST /ws HTTP/1.1\r\nupgrade: websocket\r\n"));
}

#[test]
fn websocket_header_must_be_the_whole_line() {
    assert!(!is_websocket_request("GET /ws HTTP/1.1\r\nupgrade: websocket, h2c\r\n"));
    assert!(!is_websocket_request("GET /ws HTTP/1.1\r\nupgrade:  websocket\r\n"));
}

#[test]
fn websocket_empty_head() {
    assert!(!is_websocket_request(""));
}

#[test]
fn websocket_header_on_last_line_without_newline() {
    assert!(is_websocket_request("GET /ws x\nupgrade: websocket"));
}

#[test]
fn websocket_handshake_from_bytes_with_invalid_utf8() {
    let mut bytes = b"GET /ws HTTP/1.1\r\nupgrade: websocket\r\nx-junk: ".to_vec();
    bytes.push(0xff);
    bytes.extend_from_slice(b"\r\n\r\n");
    assert!(is_websocket_handshake(&bytes));
    assert!(!is_websocket_handshake(b"GET / HTTP/1.1\r\n\r\n"));
}

#[test]
fn request_path_of_get_and_head() {
    assert_eq!(request_path("GET /index.html HTTP/1.1\r\nHost: a\r\n"), Some("/index.html"));
    assert_eq!(request_path("HEAD /app.js?v=3 HTTP/1.1\r\n"), Some("/app.js"));
    assert_eq!(request_path("GET   /a/b   HTTP/1.1"), Some("/a/b"));
    assert_eq!(request_path("GET /?x HTTP/1.1"), Some("/"));
}

#[test]
fn request_path_refuses_other_methods() {
    assert_eq!(request_path("POST /x HTTP/1.1\r\n"), None);
    assert_eq!(request_path("get /x HTTP/1.1\r\n"), None);
}

#[test]
fn request_path_needs_two_words() {
    assert_eq!(request_path("GET\r\n"), None);
    assert_eq!(request_path(""), None);
    assert_eq!(request_path("\r\nGET /x"), None);
}

#[test]
fn request_path_first_line_only() {
    assert_eq!(request_path("GET\n/x HTTP/1.1"), None);
}

#[test]
fn static_file_path_joins_under_dir() {
    assert_eq!(static_file_path("web-client/web", "/app.js"), Some("web-client/web/app.js".to_string()));
    assert_eq!(static_file_path("web-client/web/", "/css/site.css"), Some("web-client/web/css/site.css".to_string()));
    assert_eq!(static_file_path("web", "///deep//x"), Some("web/deep//x".to_string()));
}

#[test]
fn static_file_path_defaults_to_index() {
    assert_eq!(static_file_path("web", "/"), Some("web/index.html".to_string()));
    assert_eq!(static_file_path("web", ""), Some("web/index.html".to_string()));
    assert_eq!(static_file_path("", "/"), Some("index.html".to_string()));
}

#[test]
fn static_file_path_refuses_traversal() {
    assert_eq!(static_file_path("web", "/../secret"), None);
    assert_eq!(static_file_path("web", "/a..b"), None);
    assert_eq!(static_file_path("web", "/a\\b"), None);
}

#[test]
fn content_types_by_extension() {
    assert_eq!(content_type("web/site.css"), "text/css; charset=utf-8");
    assert_eq!(content_type("web/index.html"), "text/html; charset=utf-8");
    assert_eq!(content_type("web/app.js"), "text/javascript; charset=utf-8");
    assert_eq!(content_type("web/pkg/client_bg.wasm"), "application/wasm");
    assert_eq!(content_type("web/logo.png"), "image/png");
    assert_eq!(content_type("web/icon.svg"), "image/svg+xml");
    assert_eq!(content_type("web/data.json"), "application/json; charset=utf-8");
    assert_eq!(content_type("web/archive.tar.gz"), "application/octet-stream");
}

#[test]
fn content_type_edge_cases_follow_path_extension() {
    assert_eq!(content_type("web/.css"), "application/octet-stream");
    assert_eq!(content_type("web/noext"), "application/octet-stream");
    assert_eq!(content_type("web/dir.css/"), "text/css; charset=utf-8");
    assert_eq!(content_type("web/a.css/."), "text/css; charset=utf-8");
    assert_eq!(content_type("web/.."), "application/octet-stream");
    assert_eq!(content_type("web/x.CSS"), "application/octet-stream");
    assert_eq!(content_type("web/x."), "application/octet-stream");
    assert_eq!(content_type(""), "application/octet-stream");
}

#[test]
fn routes_of_static_requests() {
    match static_route("GET /a.css HTTP/1.1\r\n\r\n", "web") {
        StaticRoute::File(f) => assert_eq!(f, "web/a.css"),
        _ => panic!("expected a file route"),
    }
    assert!(matches!(static_route("DELETE / HTTP/1.1\r\n", "web"), StaticRoute::BadRequest));
    assert!(matches!(static_route("GET /../x HTTP/1.1\r\n", "web"), StaticRoute::Forbidden));
    match route_request_bytes(b"GET / HTTP/1.1\r\n\r\n", "web") {
        StaticRoute::File(f) => assert_eq!(f, "web/index.html"),
        _ => panic!("expected a file route"),
    }
}

#[test]
fn rejection_responses() {
    let bad = rejection_response(&StaticRoute::BadRequest).unwrap();
    assert_eq!(bad.status, "400 Bad Request");
    assert_eq!(bad.content_type, "text/plain; charset=utf-8");
    assert_eq!(bad.body, b"Bad Request".to_vec());
    let forbidden = rejection_response(&StaticRoute::Forbidden).unwrap();
    assert_eq!(forbidden.status, "403 Forbidden");
    assert_eq!(forbidden.body, b"Forbidden".to_vec());
    assert!(rejection_response(&StaticRoute::File("x".to_string())).is_none());
}

#[test]
fn file_responses() {
    let ok = file_response("web/app.js", FileRead::Found(vec![1, 2, 3])).unwrap();
    assert_eq!(ok.status, "200 OK");
    assert_eq!(ok.content_type, "text/javascript; charset=utf-8");
    assert_eq!(ok.body, vec![1, 2, 3]);
    let missing = file_response("web/app.js", FileRead::NotFound).unwrap();
    assert_eq!(missing.status, "404 Not Found");
    assert_eq!(missing.content_type, "text/plain; charset=utf-8");
    assert_eq!(missing.body, b"Not Found".to_vec());
    assert!(file_response("web/app.js", FileRead::Failed).is_none());
}

#[test]
fn response_head_text() {
    assert_eq!(
        response_head("200 OK", "text/css; charset=utf-8", 1234),
        "HTTP/1.1 200 OK\r\ncontent-type: text/css; charset=utf-8\r\ncontent-length: 1234\r\ncache-control: public, max-age=60\r\nconnection: close\r\n\r\n"
    );
    assert!(response_head("404 Not Found", "text/plain; charset=utf-8", 0).contains("content-length: 0\r\n"));
}

#[test]
fn decimal_strings_read_back() {
    for n in [0u64, 7, 10, 99, 100, 65535, u64::MAX] {
        assert_eq!(decimal_string(n), n.to_string());
        assert_eq!(decimal_string(n).parse::<u64>().unwrap(), n);
    }
}

#[test]
fn request_head_completion() {
    assert!(request_head_complete(b"GET / HTTP/1.1\r\n\r\n"));
    assert!(!request_head_complete(b"GET / HTTP/1.1\r\n"));
    assert!(!request_head_complete(b""));
    assert!(request_head_complete(&vec![b'a'; 8193]));
    assert!(!request_head_complete(&vec![b'a'; 8192]));
}

#[test]
fn relay_steps() {
    assert!(matches!(relay_step(RelayMessage::Binary(vec![9, 8])), RelayStep::Forward(b) if b == vec![9, 8]));
    assert!(matches!(relay_step(RelayMessage::Text("hé".to_string())), RelayStep::Forward(b) if b == "hé".as_bytes().to_vec()));
    assert!(matches!(relay_step(RelayMessage::Close), RelayStep::Stop));
    assert!(matches!(relay_step(RelayMessage::Ping), RelayStep::Skip));
    assert!(matches!(relay_step(RelayMessage::Pong), RelayStep::Skip));
    assert!(matches!(relay_step(RelayMessage::Frame), RelayStep::Skip));
}

#[test]
fn play_requests_are_upgraded_to_sessions() {
    let head = "GET /play?name=Guest HTTP/1.1\r\nHost: h\r\nUpgrade: websocket\r\nConnection: Upgrade\r\n\r\n";
    assert!(is_play_request(head));
    match upgrade_route(head) {
        UpgradeRoute::Play(name) => assert_eq!(name, "Guest"),
        _ => panic!("a /play upgrade starts a play session"),
    }
    match upgrade_route_bytes(head.as_bytes()) {
        UpgradeRoute::Play(name) => assert_eq!(name, "Guest"),
        _ => panic!("a /play upgrade starts a play session"),
    }
    assert!(matches!(
        upgrade_route("GET /ws HTTP/1.1\r\nupgrade: websocket\r\n\r\n"),
        UpgradeRoute::Relay
    ));
    assert!(matches!(upgrade_route("GET /play HTTP/1.1\r\nHost: h\r\n\r\n"), UpgradeRoute::Http));
    assert!(matches!(
        upgrade_route("GET /player HTTP/1.1\r\nupgrade: websocket\r\n\r\n"),
        UpgradeRoute::Http
    ));
    assert!(matches!(upgrade_route("GET /index.html HTTP/1.1\r\n\r\n"), UpgradeRoute::Http));
}

#[test]
fn play_user_names() {
    let up = "\r\nupgrade: websocket\r\n\r\n";
    assert_eq!(play_user_name(&format!("GET /play?name=Ann HTTP/1.1{up}")), "Ann");
    assert_eq!(play_user_name(&format!("GET /play?x=1&name=Bo&name=Cy HTTP/1.1{up}")), "Bo");
    assert_eq!(play_user_name(&format!("GET /play?nickname=Al HTTP/1.1{up}")), "guest");
    assert_eq!(play_user_name(&format!("GET /play?name= HTTP/1.1{up}")), "guest");
    assert_eq!(play_user_name(&format!("GET /play HTTP/1.1{up}")), "guest");
    assert_eq!(play_user_name(&format!("GET /play?name=A%20B HTTP/1.1{up}")), "A%20B");
}

#[test]
fn api_routes_are_answered_by_the_gateway() {
    assert!(matches!(http_route("GET /api/health HTTP/1.1\r\n\r\n", "web"), HttpRoute::Health));
    assert!(matches!(http_route("GET /api/status HTTP/1.1\r\n\r\n", "web"), HttpRoute::Status));
    assert!(matches!(
        http_route_bytes(b"HEAD /api/status?x=1 HTTP/1.1\r\n\r\n", "web"),
        HttpRoute::Status
    ));
    match http_route("GET /api/other HTTP/1.1\r\n\r\n", "web") {
        HttpRoute::Static(StaticRoute::File(f)) => assert_eq!(f, "web/api/other"),
        _ => panic!("other paths are static files"),
    }
    assert!(matches!(
        http_route("POST /api/health HTTP/1.1\r\n\r\n", "web"),
        HttpRoute::Static(StaticRoute::BadRequest)
    ));
}

#[test]
fn health_and_status_responses() {
    let up = health_response(true);
    assert_eq!((up.status, up.body.as_slice()), ("200 OK", &b"ok"[..]));
    let down = health_response(false);
    assert_eq!((down.status, down.body.as_slice()), ("503 Service Unavailable", &b"unreachable"[..]));
    let status = status_response(true, Some(7), 2, 100);
    assert_eq!(status.status, "200 OK");
    assert_eq!(status.content_type, "application/json; charset=utf-8");
    assert_eq!(
        String::from_utf8(status.body).unwrap(),
        "{\"reachable\":true,\"players_online\":7,\"active_sessions\":2,\"session_limit\":100}"
    );
    let status = status_response(false, None, 0, 5);
    assert_eq!(
        String::from_utf8(status.body).unwrap(),
        "{\"reachable\":false,\"players_online\":null,\"active_sessions\":0,\"session_limit\":5}"
    );
}

#[test]
fn play_session_limit_and_admission() {
    assert_eq!(web_session_limit(None, None), 100);
    assert_eq!(DEFAULT_WEB_SESSION_LIMIT, 100);
    assert_eq!(web_session_limit(Some("25"), None), 25);
    assert_eq!(web_session_limit(Some("+7"), None), 7);
    assert_eq!(web_session_limit(Some("0"), None), 0);
    assert_eq!(web_session_limit(Some(""), None), 100);
    assert_eq!(web_session_limit(Some("ten"), None), 100);
    assert_eq!(web_session_limit(Some("-3"), None), 100);
    assert_eq!(web_session_limit(Some("99999999999999999999999"), None), 100);
    // Without a session limit the gateway follows the server's player cap.
    assert_eq!(web_session_limit(None, Some("50")), 50);
    assert_eq!(web_session_limit(Some("ten"), Some("50")), 50);
    assert_eq!(web_session_limit(Some("25"), Some("50")), 25);
    assert_eq!(web_session_limit(None, Some("many")), 100);
    assert!(admit_play_session(99, 100));
    assert!(!admit_play_session(100, 100));
    assert!(!admit_play_session(0, 0));
    let refused = play_refused_response();
    assert_eq!(refused.status, "503 Service Unavailable");
    assert_eq!(refused.body, b"web session limit reached".to_vec());
}
