use mcp_http::caller::McpCaller;
use mcp_http::json::Json;
use mcp_http::lua::{
    caller_context, caller_from_options, dispatch_lua_mcp, err_string, issue_mcp_caller, lua_reply, lua_step,
    waits_for_callback, LuaAnswer, LuaArg, LuaCall, LuaDispatch, LuaErrorValue, LuaList, LuaReplyShape, LuaRun, LuaStep, ReplySlot,
};
use mcp_http::registry::McpCallerRegistry;

fn issue(callers: &mut McpCallerRegistry, session: &str, hub: &str) -> (String, String) {
    let fields = issue_mcp_caller(callers, Some(session.to_string()), Some(hub.to_string()), vec![])
        .expect("issue");
    assert_eq!(fields.len(), 4);
    assert_eq!(fields.get("url_env"), Some("BOTSTER_MCP_URL"));
    assert_eq!(fields.get("token_env"), Some("BOTSTER_MCP_TOKEN"));
    (
        fields.get("url").expect("url").to_string(),
        fields.get("token").expect("token").to_string(),
    )
}

#[test]
fn lua_issue_and_revoke_are_session_scoped() {
    let mut callers = McpCallerRegistry::new();
    callers.set_url("http://127.0.0.1:9/mcp");
    let first = issue(&mut callers, "sess-lua", "hub-lua");
    let second = issue(&mut callers, "sess-lua", "hub-lua");
    assert_eq!(first.0, second.0);
    assert_eq!(first.1, second.1);
    let other = issue(&mut callers, "sess-other", "hub-lua");
    assert_ne!(other.1, first.1);
    callers.revoke_session("sess-lua");
    assert!(callers.authorize(&first.1).is_none());
    assert_eq!(callers.caller_count(), 1);
}

#[test]
fn lua_options_name_the_caller() {
    let extras = vec![
        ("session_uuid".to_string(), "stolen".to_string()),
        ("hub_id".to_string(), "stolen".to_string()),
        ("k".to_string(), "1".to_string()),
        ("k".to_string(), "2".to_string()),
    ];
    let caller = caller_from_options(Some("s".to_string()), None, extras).expect("caller");
    assert_eq!(caller.session_uuid, "s");
    assert_eq!(caller.hub_id, "");
    assert_eq!(caller.context.len(), 3);
    assert_eq!(caller.context.get("session_uuid"), Some("s"));
    assert_eq!(caller.context.get("hub_id"), Some(""));
    assert_eq!(caller.context.get("k"), Some("2"));
    let refused = caller_from_options(None, Some("h".to_string()), vec![]);
    assert_eq!(
        refused.err(),
        Some("hub.issue_mcp_caller: session_uuid required".to_string())
    );
    let mut callers = McpCallerRegistry::new();
    assert_eq!(
        issue_mcp_caller(&mut callers, Some("s".to_string()), None, vec![]).err(),
        Some("shared MCP HTTP listener is not running".to_string())
    );
    assert_eq!(
        issue_mcp_caller(&mut callers, None, None, vec![]).err(),
        Some("hub.issue_mcp_caller: session_uuid required".to_string())
    );
}

fn call(method: &str, params: &str) -> LuaCall {
    let caller = McpCaller::new("sess", "hub");
    let params = Json::parse(params.as_bytes()).expect("params");
    match lua_step(&caller, method, &params) {
        LuaStep::Call(call) => call,
        _ => panic!("no call for {method}"),
    }
}

fn show(args: &[LuaArg]) -> Vec<String> {
    args.iter()
        .map(|arg| match arg {
            LuaArg::Text(s) => format!("text {s}"),
            LuaArg::Data(json) => format!("data {}", json.to_text()),
            LuaArg::Context => "context".to_string(),
            LuaArg::Callback => "callback".to_string(),
        })
        .collect()
}

#[test]
fn methods_call_their_lua_function() {
    let tools = call("tools/list", "{}");
    assert_eq!(tools.function, "list_tools");
    assert_eq!(show(&tools.args), ["text sess"]);
    assert_eq!(tools.shape, LuaReplyShape::List(LuaList::Tools));

    let tool = call("tools/call", "{\"name\":\"t\",\"arguments\":{\"x\":1}}");
    assert_eq!(tool.function, "call_tool");
    assert_eq!(show(&tool.args), ["text t", "data {\"x\":1}", "context", "callback"]);
    assert_eq!(tool.shape, LuaReplyShape::ToolCallback);

    let prompts = call("prompts/list", "{}");
    assert_eq!(prompts.function, "list_prompts");
    assert!(prompts.args.is_empty());
    assert_eq!(prompts.shape, LuaReplyShape::List(LuaList::Prompts));

    let prompt = call("prompts/get", "{\"name\":\"p\"}");
    assert_eq!(prompt.function, "get_prompt");
    assert_eq!(show(&prompt.args), ["text p", "data {}"]);
    assert_eq!(prompt.shape, LuaReplyShape::Prompt);

    let templates = call("resources/templates/list", "{}");
    assert_eq!(templates.function, "list_resource_templates");
    assert_eq!(templates.shape, LuaReplyShape::List(LuaList::ResourceTemplates));

    let resource = call("resources/read", "{\"uri\":\"u://1\"}");
    assert_eq!(resource.function, "read_resource");
    assert_eq!(show(&resource.args), ["text u://1", "context", "callback"]);
    assert_eq!(resource.shape, LuaReplyShape::ResourceCallback);
}

#[test]
fn methods_without_their_parameter_are_refused() {
    let caller = McpCaller::new("sess", "hub");
    for (method, message) in [
        ("tools/call", "tools/call missing name"),
        ("prompts/get", "prompts/get missing name"),
        ("resources/read", "resources/read missing uri"),
    ] {
        match lua_step(&caller, method, &Json::empty_object().with("name", Json::Null)) {
            LuaStep::Refuse(text) => assert_eq!(text, message),
            _ => panic!("not refused"),
        }
    }
}

#[test]
fn unknown_methods_are_answered_with_an_error() {
    match lua_step(&McpCaller::new("s", "h"), "nope", &Json::Null) {
        LuaStep::Reply(reply) => {
            assert!(reply.result.is_none());
            assert_eq!(
                reply.error.expect("error").to_text(),
                "{\"code\":-32601,\"message\":\"method not found: nope\"}"
            );
        }
        _ => panic!("not answered"),
    }
}

fn result_of(shape: LuaReplyShape, answer: LuaAnswer) -> String {
    lua_reply(shape, answer).expect("reply").result.expect("result").to_text()
}

fn error_of(shape: LuaReplyShape, answer: LuaAnswer) -> String {
    lua_reply(shape, answer).expect("reply").error.expect("error").to_text()
}

fn gave(value: Option<Json>, err: LuaErrorValue, flag: Option<bool>) -> LuaAnswer {
    LuaAnswer::Gave(value.ok_or("no json".to_string()), err, flag)
}

#[test]
fn lua_answers_become_replies() {
    let text = |s: &str| LuaErrorValue::Text(Some(s.to_string()));
    let list = || Some(Json::Array(vec![Json::Bool(true)]));
    for (kind, expected) in [
        (LuaList::Tools, "{\"tools\":[true]}"),
        (LuaList::Prompts, "{\"prompts\":[true]}"),
        (LuaList::ResourceTemplates, "{\"resourceTemplates\":[true]}"),
    ] {
        let shape = LuaReplyShape::List(kind);
        assert_eq!(result_of(shape, gave(list(), LuaErrorValue::Nil, None)), expected);
        assert!(lua_reply(shape, gave(None, LuaErrorValue::Nil, None)).is_none());
        assert!(lua_reply(shape, LuaAnswer::Failed("x".to_string())).is_none());
    }

    let tool = LuaReplyShape::ToolCallback;
    assert_eq!(
        result_of(tool, gave(list(), LuaErrorValue::Nil, Some(true))),
        "{\"content\":[true],\"isError\":true}"
    );
    assert_eq!(
        result_of(tool, gave(None, LuaErrorValue::Text(None), None)),
        "{\"content\":[],\"isError\":false}"
    );
    assert_eq!(
        error_of(tool, gave(list(), text("bad"), Some(true))),
        "{\"code\":-32000,\"message\":\"bad\"}"
    );
    assert!(lua_reply(tool, LuaAnswer::Failed("x".to_string())).is_none());

    let resource = LuaReplyShape::ResourceCallback;
    assert_eq!(
        result_of(resource, gave(list(), LuaErrorValue::Nil, None)),
        "{\"contents\":[true]}"
    );
    assert_eq!(result_of(resource, gave(None, LuaErrorValue::Nil, None)), "{\"contents\":[]}");
    assert_eq!(
        error_of(resource, gave(None, LuaErrorValue::Other("7".to_string()), None)),
        "{\"code\":-32002,\"message\":\"7\"}"
    );

    let prompt = LuaReplyShape::Prompt;
    assert_eq!(result_of(prompt, gave(list(), LuaErrorValue::Nil, None)), "[true]");
    assert!(lua_reply(prompt, gave(None, LuaErrorValue::Nil, None)).is_none());
    assert_eq!(
        error_of(prompt, gave(list(), text("no"), None)),
        "{\"code\":-32000,\"message\":\"no\"}"
    );
    assert_eq!(
        error_of(prompt, LuaAnswer::Failed("boom".to_string())),
        "{\"code\":-32000,\"message\":\"boom\"}"
    );
}

#[test]
fn lua_error_values_have_their_message() {
    assert_eq!(err_string(LuaErrorValue::Nil), None);
    assert_eq!(err_string(LuaErrorValue::Text(None)), None);
    assert_eq!(err_string(LuaErrorValue::Text(Some("e".to_string()))), Some("e".to_string()));
    assert_eq!(err_string(LuaErrorValue::Other("nil?".to_string())), Some("nil?".to_string()));
}

#[test]
fn lua_context_is_an_object_of_texts() {
    let mut caller = McpCaller::new("s", "h");
    caller.context.insert("a".to_string(), "\"".to_string());
    assert_eq!(
        caller_context(&caller).to_text(),
        "{\"a\":\"\\\"\",\"hub_id\":\"h\",\"session_uuid\":\"s\"}"
    );
}

fn encode(context: Json) -> Result<String, String> {
    Ok(context.to_text())
}

const ALICE: &str = "{\"hub_id\":\"hub\",\"session_uuid\":\"sess-alice\"}";

fn dispatch_with(method: &str, run: LuaRun) -> LuaDispatch {
    let alice = McpCaller::new("sess-alice", "hub");
    let params = Json::empty_object().with("name", Json::text("n")).with("uri", Json::text("u"));
    dispatch_lua_mcp(&alice, method, &params, encode, |_, context| {
        assert_eq!(context, ALICE);
        run
    })
}

fn refusal(method: &str, run: LuaRun) -> String {
    match dispatch_with(method, run) {
        LuaDispatch::Refused(message) => message,
        _ => panic!("not refused"),
    }
}

#[test]
fn lua_dispatch_makes_one_call_for_its_caller() {
    let alice = McpCaller::new("sess-alice", "hub");
    let name = Json::empty_object().with("name", Json::text("n"));
    let listed = dispatch_lua_mcp(&alice, "tools/list", &name, encode, |call, context| {
        assert_eq!(show(&call.args), ["text sess-alice"]);
        assert_eq!(context, ALICE);
        LuaRun::Answered(gave(Some(Json::Array(vec![])), LuaErrorValue::Nil, None))
    });
    match listed {
        LuaDispatch::Reply(reply) => {
            assert_eq!(reply.result.expect("result").to_text(), "{\"tools\":[]}");
        }
        _ => panic!("no reply"),
    }
    assert!(matches!(dispatch_with("tools/call", LuaRun::Waiting), LuaDispatch::Waiting));
    let prompt =
        dispatch_with("prompts/get", LuaRun::Answered(LuaAnswer::Failed("down".to_string())));
    assert!(matches!(prompt, LuaDispatch::Reply(r) if r.error.is_some()));
    let refused =
        dispatch_lua_mcp(&alice, "resources/read", &name, encode, |_, _| panic!("called"));
    assert!(matches!(refused, LuaDispatch::Refused(m) if m == "resources/read missing uri"));
    let unknown = dispatch_lua_mcp(&alice, "x", &name, encode, |_, _| panic!("called"));
    assert!(matches!(unknown, LuaDispatch::Reply(r) if r.error.is_some()));
}

#[test]
fn lua_failures_say_what_failed() {
    let cause = || "e".to_string();
    let failed = || LuaRun::Answered(LuaAnswer::Failed("e".to_string()));
    let broken = || LuaRun::Answered(gave(None, LuaErrorValue::Nil, None));
    assert_eq!(refusal("tools/call", failed()), "mcp.call_tool: e");
    assert_eq!(refusal("prompts/list", failed()), "mcp.list_prompts: e");
    assert_eq!(refusal("prompts/get", LuaRun::NoFunction(cause())), "mcp.get_prompt: e");
    assert_eq!(refusal("tools/call", LuaRun::NotEncoded(cause())), "encode tool arguments: e");
    assert_eq!(refusal("prompts/get", LuaRun::NotEncoded(cause())), "encode prompt arguments: e");
    assert_eq!(
        refusal("tools/call", LuaRun::NoCallback(cause())),
        "create tools/call callback: e"
    );
    assert_eq!(
        refusal("resources/read", LuaRun::NoCallback(cause())),
        "create resources/read callback: e"
    );
    assert_eq!(refusal("prompts/list", broken()), "convert Lua MCP value: no json");
    assert_eq!(refusal("prompts/get", broken()), "convert Lua MCP value: no json");
}

#[test]
fn a_context_that_cannot_be_encoded_ends_every_dispatch() {
    for method in ["tools/list", "resources/read", "x"] {
        let ended = dispatch_lua_mcp(
            &McpCaller::new("s", "h"),
            method,
            &Json::Null,
            |_| Err::<String, String>("e".to_string()),
            |_, _| panic!("called"),
        );
        assert!(matches!(ended, LuaDispatch::Refused(m) if m == "encode caller context: e"));
    }
}

#[test]
fn tools_and_resources_call_back() {
    assert!(waits_for_callback(LuaReplyShape::ToolCallback));
    assert!(waits_for_callback(LuaReplyShape::ResourceCallback));
    assert!(!waits_for_callback(LuaReplyShape::Prompt));
    assert!(!waits_for_callback(LuaReplyShape::List(LuaList::Tools)));
}

#[test]
fn only_the_first_reply_goes_out() {
    let mut slot = ReplySlot::new("reply");
    assert_eq!(slot.take(), Some("reply"));
    assert_eq!(slot.take(), None);
    assert_eq!(slot.take(), None);
}
