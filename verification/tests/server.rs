use mcp_http::caller::McpCaller;
use mcp_http::dispatch::{
    direct_reply, dispatch_timeout_secs, finish_post, handle_request, hub_reply, HubOutcome,
};
use mcp_http::fanout::McpListKind;
use mcp_http::headers::{accepts_event_stream, bearer_header, extract_bearer};
use mcp_http::json::Json;
use mcp_http::listener::{listener_url, McpHttpListener};
use mcp_http::registry::McpCallerRegistry;
use mcp_http::response::{HttpResponse, McpHttpReply};
use mcp_http::server::{
    handle_payload, handle_post, initialize_result, route, sse_response, PostStep, RequestHead,
    Route, BODY_LIMIT,
};
use serde_json::Value;

const VERSION: &str = "1.2.3";

fn start_server() -> (McpCallerRegistry, McpHttpListener<u8>) {
    let mut callers = McpCallerRegistry::new();
    let listener = McpHttpListener::publish(&mut callers, "127.0.0.1:4321", 1u8);
    (callers, listener)
}

fn scoped(caller: McpCaller, method: String, params: Json) -> Result<Json, String> {
    match method.as_str() {
        "tools/list" => {
            let tool = Json::empty_object()
                .with("name", Json::text(&format!("whoami_{}", caller.session_uuid)))
                .with("description", Json::text(&format!("caller {}", caller.session_uuid)))
                .with("inputSchema", Json::empty_object().with("type", Json::text("object")));
            Ok(Json::empty_object().with("tools", Json::Array(vec![tool])))
        }
        "tools/call" => {
            let name = params.get_str("name").unwrap_or("").to_string();
            if name != format!("whoami_{}", caller.session_uuid) {
                return Err(format!("tool not available for this caller: {name}"));
            }
            let identity = Json::empty_object()
                .with("session_uuid", Json::text(&caller.session_uuid))
                .with("hub_id", Json::text(&caller.hub_id));
            let content = Json::empty_object()
                .with("type", Json::text("text"))
                .with("text", Json::text(&identity.to_text()));
            Ok(Json::empty_object()
                .with("content", Json::Array(vec![content]))
                .with("isError", Json::Bool(false)))
        }
        other => Err(format!("unexpected method {other}")),
    }
}

fn head(method: &str, path: &str, authorization: Option<&str>, accept: Option<&str>) -> RequestHead {
    RequestHead {
        method: method.to_string(),
        path: path.to_string(),
        authorization: authorization.map(|v| v.as_bytes().to_vec()),
        accept: accept.map(|v| v.as_bytes().to_vec()),
    }
}

fn send(callers: &McpCallerRegistry, head: &RequestHead, body: &str) -> HttpResponse {
    handle_request(
        callers,
        head,
        Some(body.as_bytes()),
        &vec![McpListKind::Tools],
        VERSION,
        scoped,
    )
}

fn rpc(
    callers: &McpCallerRegistry,
    token: Option<&str>,
    id: u64,
    method: &str,
    params: &str,
) -> (u16, Value) {
    let authorization = token.map(|t| bearer_header(t));
    let body = format!(
        "{{\"jsonrpc\":\"2.0\",\"id\":{id},\"method\":\"{method}\",\"params\":{params}}}"
    );
    let response = send(callers, &head("POST", "/mcp", authorization.as_deref(), None), &body);
    let value = serde_json::from_str::<Value>(&response.body).unwrap_or(Value::Null);
    (response.status, value)
}

#[test]
fn shared_listener_reuses_one_url_across_sessions() {
    let (mut callers, listener) = start_server();
    let alice = callers.issue(McpCaller::new("sess-alice", "hub-1")).expect("alice");
    let bob = callers.issue(McpCaller::new("sess-bob", "hub-1")).expect("bob");
    assert_eq!(alice.url, bob.url);
    assert_eq!(alice.url, listener.url());
    assert_eq!(callers.caller_count(), 2);
}

#[test]
fn missing_and_stale_tokens_are_rejected() {
    let (mut callers, _listener) = start_server();
    let issued = callers.issue(McpCaller::new("sess-live", "hub-1")).expect("issue");

    let (status, _) = rpc(&callers, None, 1, "initialize", "{}");
    assert_eq!(status, 401);

    let (status, _) = rpc(&callers, Some("btcaller_unknown"), 2, "initialize", "{}");
    assert_eq!(status, 401);

    let (status, _) = rpc(&callers, Some(issued.token.as_str()), 3, "initialize", "{}");
    assert_eq!(status, 200);

    callers.revoke_session("sess-live");
    let (status, _) = rpc(&callers, Some(issued.token.as_str()), 3, "initialize", "{}");
    assert_eq!(status, 401);
}

#[test]
fn callers_cannot_see_each_other_tools_or_identity() {
    let (mut callers, _listener) = start_server();
    let alice = callers.issue(McpCaller::new("sess-alice", "hub-alice")).expect("alice");
    let bob = callers.issue(McpCaller::new("sess-bob", "hub-bob")).expect("bob");

    let (_, init) = rpc(&callers, Some(alice.token.as_str()), 1, "initialize", "{}");
    assert_eq!(init["result"]["serverInfo"]["name"], "botster-hub");
    assert!(
        !init.to_string().contains("sess-alice"),
        "initialize must not leak the caller session: {init}"
    );

    let (_, alice_tools) = rpc(&callers, Some(alice.token.as_str()), 2, "tools/list", "{}");
    let (_, bob_tools) = rpc(&callers, Some(bob.token.as_str()), 3, "tools/list", "{}");
    let alice_name = alice_tools["result"]["tools"][0]["name"].as_str().unwrap();
    let bob_name = bob_tools["result"]["tools"][0]["name"].as_str().unwrap();
    assert_eq!(alice_name, "whoami_sess-alice");
    assert_eq!(bob_name, "whoami_sess-bob");
    assert!(!alice_tools.to_string().contains("sess-bob"));
    assert!(!bob_tools.to_string().contains("sess-alice"));

    let (_, stolen) = rpc(
        &callers,
        Some(alice.token.as_str()),
        4,
        "tools/call",
        "{\"name\":\"whoami_sess-bob\",\"arguments\":{}}",
    );
    assert!(
        stolen["error"]["message"].as_str().unwrap_or_default().contains("not available"),
        "alice must not call bob's tool: {stolen}"
    );
    assert_eq!(stolen["error"]["code"], -32000);

    let (_, own) = rpc(
        &callers,
        Some(alice.token.as_str()),
        5,
        "tools/call",
        "{\"name\":\"whoami_sess-alice\",\"arguments\":{}}",
    );
    let text = own["result"]["content"][0]["text"].as_str().unwrap();
    assert!(text.contains("sess-alice"));
    assert!(!text.contains("sess-bob"));
    assert_eq!(own["id"], 5);
}

#[test]
fn reconnect_reuses_the_same_caller_credential() {
    let (mut callers, _listener) = start_server();
    let issued = callers.issue(McpCaller::new("sess-re", "hub-1")).expect("issue");
    let (_, first) = rpc(&callers, Some(issued.token.as_str()), 1, "tools/list", "{}");
    let (_, second) = rpc(&callers, Some(issued.token.as_str()), 2, "tools/list", "{}");
    assert_eq!(
        first["result"]["tools"][0]["name"],
        second["result"]["tools"][0]["name"]
    );
    assert_eq!(first["result"]["tools"][0]["name"], "whoami_sess-re");
}

#[test]
fn shutdown_revokes_credentials_and_closes_listener() {
    let (mut callers, mut listener) = start_server();
    let issued = callers.issue(McpCaller::new("sess-stop", "hub-1")).expect("issue");
    let token = issued.token.as_str().to_string();
    let (_, ok) = rpc(&callers, Some(&token), 1, "initialize", "{}");
    assert!(ok.get("result").is_some());

    assert_eq!(listener.shutdown(), Some(1u8));
    assert_eq!(listener.shutdown(), None);
    callers.revoke_all();

    assert!(callers.authorize(&token).is_none());
    let (status, _) = rpc(&callers, Some(&token), 2, "initialize", "{}");
    assert_eq!(status, 401, "shutdown must reject or close stale callers");
}

#[test]
fn listener_url_has_the_mcp_path() {
    assert_eq!(listener_url("127.0.0.1:9"), "http://127.0.0.1:9/mcp");
    let (callers, listener) = start_server();
    assert_eq!(listener.url(), "http://127.0.0.1:4321/mcp");
    assert_eq!(callers.url(), Some("http://127.0.0.1:4321/mcp".to_string()));
}

#[test]
fn requests_are_routed_by_path_credential_and_method() {
    let (mut callers, _listener) = start_server();
    let issued = callers.issue(McpCaller::new("sess", "hub")).expect("issue");
    let auth = bearer_header(issued.token.as_str());
    let auth = Some(auth.as_str());

    let missing = send(&callers, &head("POST", "/other", auth, None), "");
    assert_eq!(missing.status, 404);
    assert_eq!(missing.body, "{\"error\":\"not found\"}");
    assert_eq!(
        missing.headers,
        vec![("content-type".to_string(), "application/json".to_string())]
    );

    let none = send(&callers, &head("POST", "/mcp", None, None), "");
    assert_eq!(none.body, "{\"error\":\"missing or invalid caller credential\"}");
    let stale = send(&callers, &head("POST", "/mcp", Some("Bearer nope"), None), "");
    assert_eq!(stale.status, 401);
    assert_eq!(stale.body, "{\"error\":\"stale or unknown caller credential\"}");

    let delete = send(&callers, &head("DELETE", "/mcp", auth, None), "");
    assert_eq!(delete.status, 204);
    assert_eq!(delete.body, "");
    assert!(delete.headers.is_empty());

    let put = send(&callers, &head("PUT", "/mcp", auth, None), "");
    assert_eq!(put.status, 405);
    assert_eq!(put.body, "{\"error\":\"method not allowed\"}");

    let plain = send(&callers, &head("GET", "/mcp", auth, Some("application/json")), "");
    assert_eq!(plain.status, 406);
    assert_eq!(plain.body, "{\"error\":\"GET /mcp requires text/event-stream\"}");

    let events = send(
        &callers,
        &head("GET", "/mcp", auth, Some("application/json, text/event-stream")),
        "",
    );
    assert_eq!(events.status, 200);
    assert_eq!(
        events.headers,
        vec![
            ("content-type".to_string(), "text/event-stream".to_string()),
            ("cache-control".to_string(), "no-cache".to_string())
        ]
    );
    assert_eq!(
        events.body,
        "event: endpoint\ndata: /mcp\n\nevent: message\ndata: \
         {\"jsonrpc\":\"2.0\",\"method\":\"notifications/tools/list_changed\"}\n\n"
    );
    match route(&callers, &head("POST", "/mcp", auth, None)) {
        Route::Post(caller) => assert_eq!(caller.session_uuid, "sess"),
        _ => panic!("not routed"),
    }
    assert_eq!(sse_response(&vec![]).body, "event: endpoint\ndata: /mcp\n\n");
}

#[test]
fn bearer_tokens_are_taken_from_the_header() {
    let take = |v: &str| extract_bearer(Some(v.as_bytes()));
    assert_eq!(take("Bearer abc"), Some("abc".to_string()));
    assert_eq!(take("bearer abc"), Some("abc".to_string()));
    assert_eq!(take("Bearer  \t abc \t"), Some("abc".to_string()));
    assert_eq!(take("Bearer a b"), Some("a b".to_string()));
    assert_eq!(take("BEARER abc"), None);
    assert_eq!(take("Bearer"), None);
    assert_eq!(take("Bearer   "), None);
    assert_eq!(take("Basic abc"), None);
    assert_eq!(take(""), None);
    assert_eq!(extract_bearer(None), None);
    assert_eq!(extract_bearer(Some(b"Bearer \xffabc")), None);
    assert_eq!(extract_bearer(Some(b"Bearer a\nb")), None);
    assert_eq!(extract_bearer(Some(b"Bearer a\x7f")), None);
    assert_eq!(bearer_header("abc"), "Bearer abc");
}

#[test]
fn event_streams_are_asked_for_by_accept() {
    assert!(accepts_event_stream(Some(b"text/event-stream")));
    assert!(accepts_event_stream(Some(b"*/*, text/event-stream;q=0.9")));
    assert!(!accepts_event_stream(Some(b"text/event-strea")));
    assert!(!accepts_event_stream(Some(b"text/event-stream\xff")));
    assert!(!accepts_event_stream(Some(b"")));
    assert!(!accepts_event_stream(None));
}

fn answer(body: &str) -> HttpResponse {
    match handle_post(McpCaller::new("s", "h"), Some(body.as_bytes()), VERSION) {
        PostStep::Respond(response) => response,
        PostStep::Dispatch(_) => panic!("dispatched"),
    }
}

#[test]
fn payloads_are_checked_before_dispatch() {
    let broken = answer("{");
    assert_eq!(broken.status, 400);
    assert_eq!(broken.body, "{\"error\":\"invalid JSON-RPC body\"}");

    let version = answer("{\"jsonrpc\":\"1.0\",\"id\":1,\"method\":\"ping\"}");
    assert_eq!(version.status, 200);
    assert_eq!(
        version.body,
        "{\"error\":{\"code\":-32600,\"message\":\"invalid JSON-RPC version\"},\"id\":null,\"jsonrpc\":\"2.0\"}"
    );
    assert_eq!(answer("[1,2]").body, version.body);
    assert_eq!(answer("{\"jsonrpc\":2.0}").body, version.body);

    let method = answer("{\"jsonrpc\":\"2.0\",\"id\":\"x\"}");
    assert_eq!(
        method.body,
        "{\"error\":{\"code\":-32600,\"message\":\"missing method\"},\"id\":\"x\",\"jsonrpc\":\"2.0\"}"
    );
    assert_eq!(answer("{\"jsonrpc\":\"2.0\",\"id\":\"x\",\"method\":7}").body, method.body);

    let notification = answer("{\"jsonrpc\":\"2.0\",\"method\":\"tools/call\"}");
    assert_eq!(notification.status, 202);
    assert_eq!(notification.body, "");
    assert!(notification.headers.is_empty());

    let ping = answer("{\"jsonrpc\":\"2.0\",\"id\":null,\"method\":\"ping\"}");
    assert_eq!(ping.body, "{\"id\":null,\"jsonrpc\":\"2.0\",\"result\":{}}");

    let init = answer("{\"jsonrpc\":\"2.0\",\"id\":1.50,\"method\":\"initialize\"}");
    assert_eq!(
        init.body,
        "{\"id\":1.5,\"jsonrpc\":\"2.0\",\"result\":{\"capabilities\":{\"prompts\":{\"listChanged\":true},\
         \"resources\":{\"listChanged\":true},\"tools\":{\"listChanged\":true}},\
         \"protocolVersion\":\"2025-03-26\",\"serverInfo\":{\"name\":\"botster-hub\",\"version\":\"1.2.3\"}}}"
    );
    assert_eq!(init.headers[0].1, "application/json");
}

#[test]
fn other_methods_wait_for_their_dispatch() {
    let body = "{\"jsonrpc\":\"2.0\",\"id\":18446744073709551615,\"method\":\"tools/list\",\
                \"params\":{\"a\":[true,null,\"\\u00e9\"]}}";
    match handle_post(McpCaller::new("s", "h"), Some(body.as_bytes()), VERSION) {
        PostStep::Dispatch(call) => {
            assert_eq!(call.caller.session_uuid, "s");
            assert_eq!(call.method, "tools/list");
            assert_eq!(call.id.to_text(), "18446744073709551615");
            assert_eq!(call.params.to_text(), "{\"a\":[true,null,\"\u{e9}\"]}");
        }
        PostStep::Respond(_) => panic!("answered"),
    }
    let payload = Json::empty_object()
        .with("jsonrpc", Json::text("2.0"))
        .with("id", Json::integer(3))
        .with("method", Json::text("other"));
    match handle_payload(McpCaller::new("s", "h"), &payload, VERSION) {
        PostStep::Dispatch(call) => {
            assert_eq!(call.id.to_text(), "3");
            assert_eq!(call.params.to_text(), "{}");
        }
        PostStep::Respond(_) => panic!("answered"),
    }
}

#[test]
fn bodies_beyond_the_limit_are_refused() {
    let refuse = |body: Option<&[u8]>| match handle_post(McpCaller::new("s", "h"), body, VERSION) {
        PostStep::Respond(response) => response,
        PostStep::Dispatch(_) => panic!("dispatched"),
    };
    assert_eq!(BODY_LIMIT, 1024 * 1024);
    let full = vec![b' '; BODY_LIMIT];
    assert_eq!(refuse(Some(&full)).status, 400);
    let large = vec![b' '; BODY_LIMIT + 1];
    assert_eq!(refuse(Some(&large)).status, 413);
    assert_eq!(refuse(None).status, 413);
    assert_eq!(refuse(None).body, "{\"error\":\"request body too large\"}");
}

#[test]
fn replies_become_answers() {
    let id = || Json::integer(9);
    let result = finish_post(id(), Ok(McpHttpReply::result(Json::text("r"))));
    assert_eq!(result.status, 200);
    assert_eq!(result.body, "{\"id\":9,\"jsonrpc\":\"2.0\",\"result\":\"r\"}");
    let error = finish_post(id(), Ok(McpHttpReply::error(-32000, "no \"luck\"")));
    assert_eq!(
        error.body,
        "{\"error\":{\"code\":-32000,\"message\":\"no \\\"luck\\\"\"},\"id\":9,\"jsonrpc\":\"2.0\"}"
    );
    let empty = finish_post(id(), Ok(McpHttpReply { result: None, error: None }));
    assert_eq!(
        empty.body,
        "{\"error\":{\"code\":-32603,\"message\":\"empty MCP reply\"},\"id\":9,\"jsonrpc\":\"2.0\"}"
    );
    let both = finish_post(
        id(),
        Ok(McpHttpReply { result: Some(Json::Null), error: Some(Json::Null) }),
    );
    assert_eq!(both.body, "{\"id\":9,\"jsonrpc\":\"2.0\",\"result\":null}");
    for (outcome, message) in [
        (HubOutcome::NotAccepted, "hub event loop is not accepting MCP requests"),
        (HubOutcome::TimedOut, "hub MCP dispatch timed out"),
        (HubOutcome::Dropped, "hub MCP dispatch dropped"),
    ] {
        let response = finish_post(id(), hub_reply(outcome));
        assert_eq!(
            response.body,
            format!(
                "{{\"error\":{{\"code\":-32603,\"message\":\"{message}\"}},\"id\":9,\"jsonrpc\":\"2.0\"}}"
            )
        );
    }
    let replied = hub_reply(HubOutcome::Replied(McpHttpReply::result(Json::Bool(true))));
    assert_eq!(finish_post(id(), replied).body, "{\"id\":9,\"jsonrpc\":\"2.0\",\"result\":true}");
    assert_eq!(
        direct_reply(Err("e".to_string())).error.expect("error").to_text(),
        "{\"code\":-32000,\"message\":\"e\"}"
    );
    assert!(direct_reply(Ok(Json::Null)).error.is_none());
}

#[test]
fn long_calls_wait_a_day() {
    assert_eq!(dispatch_timeout_secs("tools/call"), 86_400);
    assert_eq!(dispatch_timeout_secs("tools/call/x"), 86_400);
    assert_eq!(dispatch_timeout_secs("prompts/get"), 86_400);
    assert_eq!(dispatch_timeout_secs("resources/read"), 86_400);
    assert_eq!(dispatch_timeout_secs("tools/list"), 15);
    assert_eq!(dispatch_timeout_secs("prompts/getx"), 15);
    assert_eq!(dispatch_timeout_secs(""), 15);
}

#[test]
fn initialize_names_the_server() {
    let result = initialize_result("0.9");
    assert_eq!(result.get("serverInfo").and_then(|s| s.get_str("version")), Some("0.9"));
    assert_eq!(result.get_str("protocolVersion"), Some("2025-03-26"));
}
