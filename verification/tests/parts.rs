use mcp_http::fanout::{retain_flagged, sse_notification, McpHttpFanout, McpListKind};
use mcp_http::json::{from_document, to_document, Json};
use mcp_http::response::{http_error, jsonrpc_error};
use mcp_http::proxy::{
    next_action, relay_answer, skips_line, ProxyAction, ProxyAnswer, ProxyEvent,
};
use mcp_http::text::{
    chars_of, contains, is_blank, join, same_text, starts_with, strip_prefix, text_between, trim,
};
use tokio::sync::mpsc;

#[test]
fn list_changed_notification_has_no_caller_payload() {
    let tools = sse_notification(McpListKind::Tools);
    assert!(tools.contains("notifications/tools/list_changed"));
    assert!(!tools.contains("session_uuid"));
    assert!(!tools.contains("hub_id"));
    assert!(!tools.contains("btcaller_"));
    assert_eq!(
        tools,
        "event: message\ndata: {\"jsonrpc\":\"2.0\",\"method\":\"notifications/tools/list_changed\"}\n\n"
    );
}

#[test]
fn list_kinds_have_a_name_and_a_method() {
    assert_eq!(McpListKind::parse("tools"), Some(McpListKind::Tools));
    assert_eq!(McpListKind::parse("prompts"), Some(McpListKind::Prompts));
    assert_eq!(McpListKind::parse("resources"), Some(McpListKind::Resources));
    assert_eq!(McpListKind::parse("Tools"), None);
    assert_eq!(McpListKind::parse(""), None);
    assert_eq!(
        McpListKind::Prompts.notification_method(),
        "notifications/prompts/list_changed"
    );
    assert_eq!(
        McpListKind::Resources.notification_method(),
        "notifications/resources/list_changed"
    );
}

#[test]
fn notify_reaches_everyone_and_drops_the_lost() {
    let mut fanout: McpHttpFanout<u32> = McpHttpFanout::new();
    fanout.notify(McpListKind::Tools, |_| panic!("nobody subscribed"));
    assert!(fanout.take_outbox().is_empty());
    for id in [1, 2, 3, 4] {
        fanout.subscribe(|_| false, id);
    }
    fanout.notify(McpListKind::Prompts, |id| *id % 2 == 1);
    assert_eq!(fanout.subscriber_count(), 2);
    assert_eq!(fanout.subscriber(0), Some(&2));
    assert_eq!(fanout.subscriber(1), Some(&4));
    assert_eq!(fanout.subscriber(2), None);
    fanout.subscribe(|_| false, 5);
    fanout.notify(McpListKind::Tools, |_| false);
    assert_eq!(
        fanout.take_outbox(),
        vec![
            vec![McpListKind::Prompts, McpListKind::Tools],
            vec![McpListKind::Prompts, McpListKind::Tools],
            vec![McpListKind::Tools],
        ]
    );
    assert_eq!(fanout.take_outbox(), vec![Vec::new(), Vec::new(), Vec::new()]);
    fanout.notify(McpListKind::Resources, |id| *id == 2);
    assert_eq!(fanout.subscriber(0), Some(&4));
    assert_eq!(
        fanout.take_outbox(),
        vec![vec![McpListKind::Resources], vec![McpListKind::Resources]]
    );
}

#[test]
fn notifications_go_through_channels_once() {
    let closed = |sub: &mpsc::UnboundedSender<McpListKind>| sub.is_closed();
    let mut fanout = McpHttpFanout::new();
    let (first, mut early) = mpsc::unbounded_channel();
    let (second, gone) = mpsc::unbounded_channel();
    fanout.subscribe(closed, first);
    fanout.subscribe(closed, second);
    drop(gone);
    fanout.notify(McpListKind::Tools, closed);
    let (third, mut late) = mpsc::unbounded_channel();
    fanout.subscribe(closed, third);
    for (at, queue) in fanout.take_outbox().into_iter().enumerate() {
        for kind in queue {
            assert!(fanout.subscriber(at).expect("subscriber").send(kind).is_ok());
        }
    }
    assert_eq!(early.try_recv().ok(), Some(McpListKind::Tools));
    assert!(early.try_recv().is_err());
    assert!(late.try_recv().is_err());
    assert_eq!(fanout.subscriber_count(), 2);
}

#[test]
fn subscribing_drops_the_closed() {
    let mut fanout: McpHttpFanout<u32> = McpHttpFanout::default();
    fanout.subscribe(|_| true, 1);
    fanout.subscribe(|_| true, 2);
    assert_eq!(fanout.subscriber_count(), 1);
    fanout.notify(McpListKind::Tools, |_| false);
    fanout.subscribe(|id| *id == 1, 3);
    assert_eq!(fanout.subscriber_count(), 2);
    assert_eq!(fanout.take_outbox(), vec![vec![McpListKind::Tools], vec![]]);
}

#[test]
fn flagged_items_are_kept_in_order() {
    let kept = retain_flagged(vec!["a", "b", "c"], &vec![true, false, true]);
    assert_eq!(kept, ["a", "c"]);
}

#[test]
fn proxy_skips_blank_lines() {
    assert!(skips_line(""));
    assert!(skips_line(" \t\u{3000}"));
    assert!(!skips_line(" {} "));
}

#[test]
fn proxy_writes_answers_as_lines() {
    assert_eq!(relay_answer(200, "200 OK", "{}"), Ok("{}\n".to_string()));
    assert_eq!(relay_answer(200, "200 OK", "{}\n"), Ok("{}\n".to_string()));
    assert_eq!(relay_answer(202, "202 Accepted", ""), Ok("\n".to_string()));
    assert_eq!(
        relay_answer(401, "401 Unauthorized", "{\"error\":1}"),
        Ok("{\"error\":1}\n".to_string())
    );
    assert_eq!(
        relay_answer(502, "502 Bad Gateway", " \n"),
        Err("shared MCP HTTP proxy received HTTP 502 Bad Gateway".to_string())
    );
    assert_eq!(
        relay_answer(300, "300 Multiple Choices", ""),
        Err("shared MCP HTTP proxy received HTTP 300 Multiple Choices".to_string())
    );
}

#[test]
fn json_is_read_and_written() {
    let text = "{\"b\":[1,-2,0.5,true,null,\"\\n\"],\"a\":{}}";
    let json = Json::parse(text.as_bytes()).expect("json");
    assert_eq!(json.to_text(), "{\"a\":{},\"b\":[1,-2,0.5,true,null,\"\\n\"]}");
    assert_eq!(json.clone().to_text(), json.to_text());
    assert!(Json::parse(b"{\"a\":}").is_none());
    assert!(Json::parse(b"").is_none());
    assert!(Json::parse(b"\xff").is_none());
    let twice = Json::parse(b"{\"k\":1,\"k\":2}").expect("json");
    assert_eq!(twice.get("k").expect("member").to_text(), "2");
    assert!(twice.get("x").is_none());
    assert!(Json::Null.get("k").is_none());
}

#[test]
fn later_members_count() {
    let json = Json::Object(vec![
        ("k".to_string(), Json::text("old")),
        ("k".to_string(), Json::text("new")),
    ]);
    assert_eq!(json.get_str("k"), Some("new"));
    assert_eq!(json.to_text(), "{\"k\":\"new\"}");
    let replaced = json.with("k", Json::integer(i64::MIN));
    assert_eq!(replaced.get_str("k"), None);
    assert_eq!(replaced.to_text(), "{\"k\":-9223372036854775808}");
}

#[test]
fn text_is_trimmed_and_searched() {
    assert_eq!(trim(" \u{a0}a b\r\n"), "a b");
    assert_eq!(trim("\u{200b}x"), "\u{200b}x");
    assert_eq!(trim("  "), "");
    for c in (0..=0x10ffffu32).filter_map(char::from_u32).filter(|c| c.is_whitespace()) {
        assert!(is_blank(&c.to_string()));
    }
    assert!(!is_blank("a"));
    assert_eq!(strip_prefix("Bearer x", "Bearer "), Some("x".to_string()));
    assert_eq!(strip_prefix("Bear", "Bearer "), None);
    assert!(starts_with("tools/call", "tools"));
    assert!(!starts_with("to", "tools"));
    assert!(contains("abcabd", "abd"));
    assert!(contains("x", ""));
    assert!(!contains("abcab", "abd"));
    assert!(same_text("\u{e9}", "\u{e9}"));
    assert!(!same_text("a", "b"));
    assert!(!same_text("a", "ab"));
    assert_eq!(join("a", "b"), "ab");
    assert_eq!(chars_of("h\u{e9}"), ['h', '\u{e9}']);
    assert_eq!(text_between(&vec!['a', 'b', 'c'], 1, 3), "bc");
}

#[test]
fn white_space_is_the_unicode_property() {
    let expected: Vec<u32> = (0x9..=0xd)
        .chain([0x20, 0x85, 0xa0, 0x1680])
        .chain(0x2000..=0x200a)
        .chain([0x2028, 0x2029, 0x202f, 0x205f, 0x3000])
        .collect();
    let found: Vec<u32> = (0..=0x10ffffu32)
        .filter_map(char::from_u32)
        .filter(|c| c.is_whitespace())
        .map(|c| c as u32)
        .collect();
    assert_eq!(found, expected);
}

#[test]
fn json_answers_are_one_line() {
    let refused = http_error(400, "a\nb\r\u{1}");
    assert_eq!(refused.body, "{\"error\":\"a\\nb\\r\\u0001\"}");
    let answer = jsonrpc_error(Some(Json::text("\n")), 1, "x\ny");
    assert!(!answer.body.contains('\n'));
    assert_eq!(relay_answer(200, "200 OK", &answer.body).expect("line").matches('\n').count(), 1);
}

#[test]
fn documents_keep_every_value() {
    let text = "{\"a\":[1.7976931348623157e308,-0.0,18446744073709551615,{\"b\":null}],\"c\":false}";
    let document: serde_json::Value = serde_json::from_str(text).expect("json");
    let json = from_document(document.clone());
    assert_eq!(to_document(&json), document);
    assert_eq!(json.to_text(), document.to_string());
}

/// Runs the proxy over lines, each with the status and body that answer it.
fn proxy(input: &[(&str, u16, &str)]) -> (Vec<String>, String, Option<String>) {
    let mut posted = Vec::new();
    let mut output = String::new();
    let mut lines = input.iter();
    let mut current = ("", 0, "");
    let mut action = ProxyAction::Read;
    loop {
        let event = match action {
            ProxyAction::Read => match lines.next() {
                Some(exchange) => {
                    current = *exchange;
                    ProxyEvent::Line(exchange.0.to_string())
                }
                None => ProxyEvent::Closed,
            },
            ProxyAction::Post(body) => {
                posted.push(body);
                ProxyEvent::Answer(ProxyAnswer {
                    status: current.1,
                    status_text: format!("{} Status", current.1),
                    body: current.2.to_string(),
                })
            }
            ProxyAction::Write(text) => {
                output.push_str(&text);
                ProxyEvent::Written
            }
            ProxyAction::Finish => return (posted, output, None),
            ProxyAction::Fail(message) => return (posted, output, Some(message)),
        };
        action = next_action(event);
    }
}

#[test]
fn proxy_runs_line_by_line() {
    let (posted, output, failure) =
        proxy(&[(" a ", 200, "1"), (" ", 200, "unused"), ("b", 202, ""), ("c", 401, "2\n")]);
    assert_eq!(posted, [" a ", "b", "c"]);
    assert_eq!(output, "1\n\n2\n");
    assert_eq!(failure, None);

    let (posted, output, failure) =
        proxy(&[("a", 200, "1"), ("\t", 500, ""), ("b", 502, " "), ("c", 200, "3")]);
    assert_eq!(posted, ["a", "b"]);
    assert_eq!(output, "1\n");
    assert_eq!(
        failure,
        Some("shared MCP HTTP proxy received HTTP 502 Status".to_string())
    );

    assert_eq!(proxy(&[]), (Vec::new(), String::new(), None));
}
