use mcp_http::caller::McpCaller;
use mcp_http::registry::{
    IssueError, McpCallerRegistry, BOTSTER_MCP_TOKEN_ENV, BOTSTER_MCP_URL_ENV,
};
use mcp_http::table::StringTable;
use mcp_http::token::{caller_token, encode_hex, generate_caller_token, CallerToken};

#[test]
fn caller_token_debug_redacts_secret() {
    let token = CallerToken::new("btcaller_supersecret");
    let rendered = token.redacted();
    assert!(rendered.contains("CallerToken"));
    assert!(!rendered.contains("supersecret"));
    assert!(!token.redacted().contains("supersecret"));
    assert_eq!(token.as_str(), "btcaller_supersecret");
    assert_eq!(rendered, "CallerToken(...)");
}

#[test]
fn issue_reuses_live_token_and_revokes_on_session_close() {
    let mut callers = McpCallerRegistry::new();
    callers.set_url("http://127.0.0.1:9/mcp");
    let first = callers
        .issue(McpCaller::new("sess-a", "hub-1"))
        .expect("issue");
    let second = callers
        .issue(McpCaller::new("sess-a", "hub-1"))
        .expect("reuse");
    assert_eq!(first.token.as_str(), second.token.as_str());
    assert_eq!(callers.caller_count(), 1);
    callers.revoke_session("sess-a");
    assert!(callers.authorize(first.token.as_str()).is_none());
    assert_eq!(callers.caller_count(), 0);
}

#[test]
fn authorize_does_not_return_another_caller() {
    let mut callers = McpCallerRegistry::new();
    callers.set_url("http://127.0.0.1:9/mcp");
    let alice = callers
        .issue(McpCaller::new("sess-alice", "hub-1"))
        .expect("alice");
    let bob = callers
        .issue(McpCaller::new("sess-bob", "hub-1"))
        .expect("bob");
    let authorized = callers.authorize(alice.token.as_str()).expect("alice auth");
    assert_eq!(authorized.session_uuid, "sess-alice");
    assert_ne!(authorized.session_uuid, "sess-bob");
    assert_ne!(alice.token.as_str(), bob.token.as_str());
    assert!(!alice.token.as_str().contains("sess-alice"));
    assert!(!alice.url.contains("sess-alice"));
}

#[test]
fn issued_credentials_name_url_and_token() {
    let mut callers = McpCallerRegistry::new();
    callers.set_url("http://127.0.0.1:9/mcp");
    let issued = callers
        .issue(McpCaller::new("sess-cfg", "hub-1"))
        .expect("issue");
    assert_eq!(BOTSTER_MCP_URL_ENV, "BOTSTER_MCP_URL");
    assert_eq!(BOTSTER_MCP_TOKEN_ENV, "BOTSTER_MCP_TOKEN");
    assert_eq!(issued.url_env(), "BOTSTER_MCP_URL");
    assert_eq!(issued.token_env(), "BOTSTER_MCP_TOKEN");
    let copy = issued.clone();
    assert_eq!(copy.url, issued.url);
    assert!(copy.token == issued.token);
    assert_eq!(issued.url, "http://127.0.0.1:9/mcp");
    assert!(issued.token.as_str().starts_with("btcaller_"));
    assert!(!issued.token.as_str().contains("sess-cfg"));
    assert_eq!(issued.token.as_str().len(), 9 + 64);
}

#[test]
fn issue_needs_a_published_url() {
    let mut callers = McpCallerRegistry::new();
    assert_eq!(callers.url(), None);
    let refused = callers.issue(McpCaller::new("sess", "hub"));
    match refused {
        Ok(_) => panic!("issued without a URL"),
        Err(e) => {
            assert_eq!(e, IssueError::ListenerNotRunning);
            assert_eq!(e.message(), "shared MCP HTTP listener is not running");
        }
    }
    assert_eq!(callers.caller_count(), 0);
    callers.set_url("http://127.0.0.1:7/mcp");
    assert_eq!(callers.url(), Some("http://127.0.0.1:7/mcp".to_string()));
    assert!(callers.issue(McpCaller::new("sess", "hub")).is_ok());
    callers.revoke_all();
    assert_eq!(callers.url(), None);
    assert_eq!(callers.caller_count(), 0);
    assert!(callers.issue(McpCaller::new("sess", "hub")).is_err());
}

#[test]
fn issue_with_a_given_secret_is_exact() {
    let mut callers = McpCallerRegistry::default();
    callers.set_url("u");
    let mut secret = [0u8; 32];
    secret[0] = 0xab;
    secret[31] = 0x0f;
    let issued = match callers.issue_with(McpCaller::new("s", "h"), &secret) {
        Ok(issued) => issued,
        Err(_) => panic!("refused"),
    };
    let expected = format!("btcaller_ab{}0f", "00".repeat(30));
    assert_eq!(issued.token.as_str(), expected);
    let caller = callers.authorize(&expected).expect("live");
    assert!(caller == McpCaller::new("s", "h"));
    let again = match callers.issue_with(McpCaller::new("s", "other"), &[7u8; 32]) {
        Ok(issued) => issued,
        Err(_) => panic!("refused"),
    };
    assert_eq!(again.token.as_str(), expected);
    assert_eq!(callers.authorize(&expected).expect("live").hub_id, "h");
    assert!(callers.authorize(&caller_token(&[7u8; 32])).is_none());
}

#[test]
fn a_shared_secret_stays_consistent() {
    let mut callers = McpCallerRegistry::new();
    callers.set_url("u");
    let secret = [1u8; 32];
    assert!(callers.issue_with(McpCaller::new("a", "h"), &secret).is_ok());
    assert!(callers.issue_with(McpCaller::new("b", "h"), &secret).is_ok());
    let token = caller_token(&secret);
    assert_eq!(callers.caller_count(), 1);
    assert_eq!(callers.authorize(&token).expect("live").session_uuid, "b");
    callers.revoke_session("b");
    assert!(callers.authorize(&token).is_none());
    let next = callers.issue_with(McpCaller::new("a", "h"), &[2u8; 32]);
    match next {
        Ok(issued) => assert_eq!(issued.token.as_str(), caller_token(&[2u8; 32])),
        Err(_) => panic!("refused"),
    }
}

#[test]
fn revocation_leaves_other_sessions() {
    let mut callers = McpCallerRegistry::new();
    callers.set_url("u");
    let a = callers.issue(McpCaller::new("a", "h")).expect("a");
    let b = callers.issue(McpCaller::new("b", "h")).expect("b");
    assert_eq!(a.url, b.url);
    callers.revoke_session("nobody");
    assert_eq!(callers.caller_count(), 2);
    callers.revoke_session("a");
    assert!(callers.authorize(a.token.as_str()).is_none());
    assert!(callers.authorize(b.token.as_str()).is_some());
    assert_eq!(callers.caller_count(), 1);
    let fresh = callers.issue(McpCaller::new("a", "h")).expect("again");
    assert_ne!(fresh.token.as_str(), a.token.as_str());
}

#[test]
fn hex_is_lower_case_and_two_digits_a_byte() {
    assert_eq!(encode_hex(&[]), "");
    assert_eq!(encode_hex(&[0x00, 0x0f, 0xa0, 0xff, 0x3c]), "000fa0ff3c");
}

#[test]
fn generated_tokens_are_prefixed_hex_and_differ() {
    let a = generate_caller_token();
    let b = generate_caller_token();
    assert_ne!(a, b);
    for token in [&a, &b] {
        let digits = token.strip_prefix("btcaller_").expect("prefix");
        assert_eq!(digits.len(), 64);
        assert!(digits.chars().all(|c| c.is_ascii_digit() || ('a'..='f').contains(&c)));
        assert_ne!(digits, "0".repeat(64));
    }
}

#[test]
fn caller_context_holds_the_identity() {
    let caller = McpCaller::new("sess", "hub");
    assert_eq!(caller.session_uuid, "sess");
    assert_eq!(caller.hub_id, "hub");
    assert_eq!(caller.context.len(), 2);
    assert_eq!(caller.context.get("session_uuid"), Some("sess"));
    assert_eq!(caller.context.get("hub_id"), Some("hub"));
    assert_eq!(caller.context.get("other"), None);
}

#[test]
fn lua_context_overrides_a_borrowed_identity() {
    let mut caller = McpCaller::new("sess", "hub");
    caller.context.insert("session_uuid".to_string(), "stolen".to_string());
    caller.context.insert("workspace".to_string(), "w1".to_string());
    let table = caller.lua_context();
    assert_eq!(table.get("session_uuid"), Some("sess"));
    assert_eq!(table.get("hub_id"), Some("hub"));
    assert_eq!(table.get("workspace"), Some("w1"));
    assert_eq!(table.len(), 3);
    assert_eq!(caller.context.get("session_uuid"), Some("stolen"));
}

#[test]
fn tables_compare_by_content() {
    let mut one = StringTable::new();
    let mut two = StringTable::new();
    one.insert("a".to_string(), "1".to_string());
    one.insert("b".to_string(), "2".to_string());
    two.insert("b".to_string(), "x".to_string());
    two.insert("a".to_string(), "1".to_string());
    assert!(one != two);
    two.insert("b".to_string(), "2".to_string());
    assert!(one == two);
    assert_eq!(two.len(), 2);
    assert_eq!(two.entries().len(), 2);
    let copy = one.clone();
    assert!(copy == one);
    two.insert("c".to_string(), "3".to_string());
    assert!(!one.same(&two));
}

#[test]
fn callers_compare_by_identity_and_context() {
    let one = McpCaller::new("s", "h");
    let mut two = one.clone();
    assert!(one == two);
    two.context.insert("k".to_string(), "v".to_string());
    assert!(one != two);
    assert!(one != McpCaller::new("s", "other"));
}

#[test]
fn tokens_compare_by_their_secret() {
    let a = CallerToken::new("btcaller_a");
    assert!(a == CallerToken::new("btcaller_a"));
    assert!(a == a.clone());
    assert!(a != CallerToken::new("btcaller_b"));
    assert!(a != CallerToken::new("btcaller_"));
    assert_eq!(a.as_str(), "btcaller_a");
}

#[test]
fn a_registry_prints_its_url_and_count_only() {
    let mut callers = McpCallerRegistry::new();
    assert_eq!(format!("{:?}", callers.state()), "CallerState { url: None, callers: 0 }");
    callers.set_url("http://127.0.0.1:9/mcp");
    let issued = callers.issue(McpCaller::new("sess", "hub")).expect("issue");
    let printed = format!("{:?}", callers.state());
    assert_eq!(
        printed,
        "CallerState { url: Some(\"http://127.0.0.1:9/mcp\"), callers: 1 }"
    );
    assert!(!printed.contains(issued.token.as_str()));
}

#[test]
fn a_live_token_outlasts_other_sessions() {
    let mut callers = McpCallerRegistry::new();
    callers.set_url("u");
    let first = callers.issue(McpCaller::new("a", "h")).expect("a");
    assert!(callers.issue(McpCaller::new("b", "h")).is_ok());
    callers.set_url("v");
    callers.revoke_session("b");
    callers.revoke_session("b");
    assert!(callers.issue(McpCaller::new("c", "h")).is_ok());
    assert_eq!(callers.caller_count(), 2);
    let again = callers.issue(McpCaller::new("a", "other")).expect("a again");
    assert!(again.token == first.token);
    assert_eq!(again.url, "v");
    assert_eq!(callers.authorize(first.token.as_str()).expect("live").hub_id, "h");
    assert_eq!(callers.caller_count(), 2);
}

#[test]
fn who_is_authorized_follows_from_the_history() {
    let mut callers = McpCallerRegistry::new();
    let one = [1u8; 32];
    let two = [2u8; 32];
    let three = [3u8; 32];
    assert!(callers.issue_with(McpCaller::new("a", "h"), &one).is_err());
    assert!(callers.authorize(&caller_token(&one)).is_none());
    callers.set_url("u");
    assert!(callers.issue_with(McpCaller::new("a", "h"), &one).is_ok());
    assert!(callers.issue_with(McpCaller::new("a", "later"), &two).is_ok());
    assert!(callers.authorize(&caller_token(&two)).is_none());
    callers.revoke_session("b");
    assert_eq!(callers.authorize(&caller_token(&one)).expect("live").hub_id, "h");
    callers.revoke_session("a");
    assert!(callers.authorize(&caller_token(&one)).is_none());
    assert!(callers.issue_with(McpCaller::new("a", "again"), &three).is_ok());
    assert_eq!(callers.authorize(&caller_token(&three)).expect("live").hub_id, "again");
    callers.revoke_all();
    assert!(callers.authorize(&caller_token(&three)).is_none());
}
