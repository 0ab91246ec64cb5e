use konnect::http::{
    accepts_event_stream, allowed_methods, localhost_origin, origin_allowed, post_reply, route, Method, PostReply,
    RequestHead, Route, HEALTH_BODY,
};
use konnect::protocol::JsonRpcResponse;
use konnect::server::McpServerState;

fn head(method: Method, path: &str, origin: Option<&str>, accept: Option<&str>) -> RequestHead {
    RequestHead {
        method,
        path: path.to_string(),
        origin: origin.map(|s| s.to_string()),
        accept: accept.map(|s| s.to_string()),
    }
}

fn response() -> JsonRpcResponse {
    JsonRpcResponse {
        id: Some(serde_json::Value::from(1)),
        result: Some(serde_json::Value::Null),
        error: None,
    }
}

#[test]
fn streamable_http_conformance() {
    let accept = Some("application/json, text/event-stream");

    // 1. POST a request: 200 with a JSON body.
    assert_eq!(route(&head(Method::Post, "/mcp", None, accept)), Route::Message);
    let reply = post_reply(Some(response()));
    assert_eq!(reply.status(), 200);
    assert!(matches!(reply, PostReply::Json(_)));
    let result = McpServerState::<()>::build_initialize_result();
    assert_eq!(result.server_info.name, "konnect");

    // 2. POST a notification: 202 Accepted, no body.
    assert_eq!(route(&head(Method::Post, "/mcp", None, accept)), Route::Message);
    let reply = post_reply(None);
    assert_eq!(reply.status(), 202);
    assert!(matches!(reply, PostReply::Accepted));

    // 3. DELETE /mcp: 405.
    assert_eq!(route(&head(Method::Delete, "/mcp", None, None)), Route::Refused(405));

    // 4. Non-localhost origin: 403.
    assert_eq!(
        route(&head(Method::Post, "/mcp", Some("https://evil.example.com"), None)),
        Route::Refused(403)
    );

    // 5. Localhost origin: allowed.
    assert_eq!(
        route(&head(Method::Post, "/mcp", Some("http://localhost:3000"), None)),
        Route::Message
    );
    assert_eq!(post_reply(Some(response())).status(), 200);
}

#[test]
fn event_streams_open_at_both_endpoints() {
    let sse = Some("text/event-stream");
    assert_eq!(route(&head(Method::Get, "/mcp", None, sse)), Route::EventStream);
    assert_eq!(route(&head(Method::Get, "/mcp", None, None)), Route::Refused(405));
    assert_eq!(route(&head(Method::Get, "/mcp", None, Some("text/html"))), Route::Refused(405));
    assert_eq!(route(&head(Method::Head, "/mcp", None, sse)), Route::Refused(405));
    assert_eq!(route(&head(Method::Head, "/mcp", None, None)), Route::Refused(405));
    assert_eq!(route(&head(Method::Get, "/mcp/sse", None, None)), Route::EventStream);
    assert_eq!(route(&head(Method::Head, "/mcp/sse", None, None)), Route::EventStream);
    assert_eq!(route(&head(Method::Post, "/mcp/sse", None, sse)), Route::Refused(405));
}

#[test]
fn health_endpoint_and_unknown_paths() {
    assert_eq!(route(&head(Method::Get, "/health", None, None)), Route::Health);
    assert_eq!(route(&head(Method::Head, "/health", None, None)), Route::Health);
    assert_eq!(route(&head(Method::Other, "/health", None, None)), Route::Refused(405));
    assert_eq!(HEALTH_BODY, "ok");
    assert_eq!(route(&head(Method::Get, "/", None, None)), Route::Refused(404));
    assert_eq!(route(&head(Method::Post, "/mcp/", None, None)), Route::Refused(404));
}

#[test]
fn served_methods_are_listed() {
    assert_eq!(allowed_methods("/mcp"), Some("GET,POST"));
    assert_eq!(allowed_methods("/mcp/sse"), Some("GET,HEAD"));
    assert_eq!(allowed_methods("/health"), Some("GET,HEAD"));
    assert_eq!(allowed_methods("/nowhere"), None);
}

#[test]
fn foreign_origins_are_refused_at_the_message_endpoint() {
    let foreign = Some("http://example.com");
    let sse = Some("text/event-stream");
    assert_eq!(route(&head(Method::Post, "/mcp", foreign, None)), Route::Refused(403));
    assert_eq!(route(&head(Method::Get, "/mcp", foreign, sse)), Route::Refused(403));
    assert_eq!(route(&head(Method::Get, "/mcp", foreign, None)), Route::Refused(405));
    assert_eq!(route(&head(Method::Delete, "/mcp", foreign, None)), Route::Refused(405));
    assert_eq!(route(&head(Method::Head, "/mcp", foreign, sse)), Route::Refused(405));
}

#[test]
fn foreign_origins_are_served_elsewhere() {
    let foreign = Some("http://example.com");
    assert_eq!(route(&head(Method::Get, "/health", foreign, None)), Route::Health);
    assert_eq!(route(&head(Method::Get, "/mcp/sse", foreign, None)), Route::EventStream);
    assert_eq!(route(&head(Method::Get, "/nowhere", foreign, None)), Route::Refused(404));
    assert_eq!(route(&head(Method::Post, "/health", foreign, None)), Route::Refused(405));
}

#[test]
fn allowed_origins_do_not_change_the_route() {
    for path in ["/mcp", "/mcp/sse", "/health", "/nowhere"] {
        for method in [Method::Get, Method::Post, Method::Delete] {
            let bare = route(&head(method, path, None, None));
            let local = route(&head(method, path, Some("http://127.0.0.1:8080"), None));
            assert_eq!(bare, local);
        }
    }
}

#[test]
fn localhost_origins_are_told_from_others() {
    for origin in [
        "http://localhost",
        "https://localhost",
        "http://localhost:3000",
        "http://127.0.0.1",
        "https://127.0.0.1:65535",
        "http://[::1]",
        "http://[::1]:8080",
        "tauri://localhost",
        "http://LOCALHOST:3000",
        "HTTP://LocalHost",
        "vscode-webview://localhost",
    ] {
        assert!(localhost_origin(origin), "{}", origin);
        assert!(origin_allowed(&Some(origin.to_string())));
    }
    for origin in [
        "",
        "null",
        "localhost",
        "http://",
        "http://localhost.example.com",
        "http://localhost:",
        "http://localhost:80a",
        "http://localhost:80/",
        "http://localhost@example.com",
        "http://example.com",
        "http://127.0.0.11",
        "://localhost",
        "a/b://localhost",
        "http:/localhost",
        "http:localhost",
        "http:///localhost",
        "http://localhos\u{54}\u{301}",
        "http://\u{212a}ocalhost",
        "http://127.0.0.Q",
        "http://\u{4f8b}.com",
    ] {
        assert!(!localhost_origin(origin), "{}", origin);
        assert!(!origin_allowed(&Some(origin.to_string())));
    }
    assert!(origin_allowed(&None));
}

#[test]
fn accept_headers_are_searched_for_event_streams() {
    for accept in [
        "text/event-stream",
        "application/json, text/event-stream",
        "text/event-stream, application/json",
        "text/html;q=0.5 ,\ttext/event-stream ; q=1",
        ",text/event-stream",
    ] {
        assert!(accepts_event_stream(accept), "{}", accept);
    }
    for accept in [
        "",
        ",",
        "*/*",
        "application/json",
        "text/event-streams",
        "text/event- stream",
        "text/html;text/event-stream",
        "text/html;a;text/event-stream,application/json",
    ] {
        assert!(!accepts_event_stream(accept), "{}", accept);
    }
}
