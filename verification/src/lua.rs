//! Lua side of the server: which Lua function a method calls, what the answer
//! of Lua comes to, and what Lua code may ask of the caller registry.

use crate::caller::{CallerView, McpCaller};
use crate::json::{integer_number, member, only_members, text_member, Json, JsonView};
use crate::registry::{
    text_view, IssuedMcpCaller, IssuedView, McpCallerRegistry, BOTSTER_MCP_TOKEN_ENV,
    BOTSTER_MCP_URL_ENV,
};
use crate::response::{json_view, lemma_error_object, names_error, McpHttpReply, ReplyView};
use crate::table::{entries_view, StringTable};
use crate::text::{join, same_text};
use crate::token::{token_text, CALLER_TOKEN_BYTES};
use vstd::prelude::*;
use vstd::string::StringExecFns;

verus! {

/// The texts of a table as JSON strings.
pub open spec fn texts_as_json(table: Map<Seq<char>, Seq<char>>) -> Map<Seq<char>, JsonView> {
    table.map_values(|s: Seq<char>| JsonView::Text(s))
}

/// The context object that Lua gets of a caller.
pub open spec fn context_view(caller: CallerView) -> JsonView {
    JsonView::Object(texts_as_json(caller.lua_context()))
}

fn table_json(table: &StringTable) -> (r: Json)
    ensures
        r@ == JsonView::Object(texts_as_json(table@)),
{
    let entries = table.entries();
    let mut out = Json::empty_object();
    assert(Map::<Seq<char>, JsonView>::empty() =~= texts_as_json(
        entries_view(entries@.take(0)),
    ));
    let mut i: usize = 0;
    while i < entries.len()
        invariant
            i <= entries@.len(),
            out@ == JsonView::Object(texts_as_json(entries_view(entries@.take(i as int)))),
        decreases entries.len() - i,
    {
        out = out.with(entries[i].0.as_str(), Json::text(entries[i].1.as_str()));
        i += 1;
        proof {
            let before = entries_view(entries@.take(i - 1));
            let last = entries@[i - 1];
            assert(entries@.take(i as int).drop_last() =~= entries@.take(i - 1));
            assert(texts_as_json(before.insert(last.0@, last.1@)) =~= texts_as_json(before).insert(
                last.0@,
                JsonView::Text(last.1@),
            ));
        }
    }
    assert(entries@.take(entries@.len() as int) =~= entries@);
    out
}

/// The context object that Lua gets of a caller.
pub fn caller_context(caller: &McpCaller) -> (r: Json)
    ensures
        r@ == context_view(caller@),
{
    table_json(&caller.lua_context())
}

/// One argument of a Lua function.
#[derive(Debug)]
pub enum LuaArg {
    Text(String),
    Data(Json),
    /// The caller's context, as it was encoded for Lua.
    Context,
    /// A function that Lua calls back once with its answer.
    Callback,
}

/// What an argument is.
pub enum LuaArgView {
    Text(Seq<char>),
    Data(JsonView),
    Context,
    Callback,
}

impl View for LuaArg {
    type V = LuaArgView;

    open spec fn view(&self) -> LuaArgView {
        match self {
            LuaArg::Text(s) => LuaArgView::Text(s@),
            LuaArg::Data(json) => LuaArgView::Data(json@),
            LuaArg::Context => LuaArgView::Context,
            LuaArg::Callback => LuaArgView::Callback,
        }
    }
}

/// A list that a Lua function returns.
#[derive(Clone, Copy, Debug, PartialEq, Eq, Structural)]
pub enum LuaList {
    Tools,
    Prompts,
    ResourceTemplates,
}

/// How the answer of a Lua function becomes a reply.
#[derive(Clone, Copy, Debug, PartialEq, Eq, Structural)]
pub enum LuaReplyShape {
    /// A list, returned.
    List(LuaList),
    /// A prompt or an error, both returned.
    Prompt,
    /// What a tool calls back with.
    ToolCallback,
    /// What a resource calls back with.
    ResourceCallback,
}

/// Whether the Lua function calls back with its answer, instead of returning it.
pub fn waits_for_callback(shape: LuaReplyShape) -> (r: bool)
    ensures
        r == (shape is ToolCallback || shape is ResourceCallback),
{
    match shape {
        LuaReplyShape::ToolCallback | LuaReplyShape::ResourceCallback => true,
        LuaReplyShape::List(_) | LuaReplyShape::Prompt => false,
    }
}

/// One call of a function of the Lua module `lib.mcp`.
#[derive(Debug)]
pub struct LuaCall {
    pub function: String,
    pub args: Vec<LuaArg>,
    pub shape: LuaReplyShape,
}

/// What a Lua call is.
pub struct LuaCallView {
    pub function: Seq<char>,
    pub args: Seq<LuaArgView>,
    pub shape: LuaReplyShape,
}

/// What each argument is.
pub open spec fn args_view(args: Seq<LuaArg>) -> Seq<LuaArgView> {
    Seq::new(args.len(), |i: int| args[i]@)
}

impl View for LuaCall {
    type V = LuaCallView;

    open spec fn view(&self) -> LuaCallView {
        LuaCallView { function: self.function@, args: args_view(self.args@), shape: self.shape }
    }
}

/// What a method comes to on the Lua side.
#[derive(Debug)]
pub enum LuaStep {
    /// One Lua function is called.
    Call(LuaCall),
    /// The reply is known.
    Reply(McpHttpReply),
    /// The parameters do not say enough; no reply is sent.
    Refuse(String),
}

/// What a step on the Lua side is.
pub enum LuaStepView {
    Call(LuaCallView),
    Reply(ReplyView),
    Refuse(Seq<char>),
}

impl View for LuaStep {
    type V = LuaStepView;

    open spec fn view(&self) -> LuaStepView {
        match self {
            LuaStep::Call(call) => LuaStepView::Call(call@),
            LuaStep::Reply(reply) => LuaStepView::Reply(reply@),
            LuaStep::Refuse(message) => LuaStepView::Refuse(message@),
        }
    }
}

/// The arguments member of parameters; none is the empty object.
pub open spec fn arguments_of(params: JsonView) -> JsonView {
    match member(params, "arguments"@) {
        Some(arguments) => arguments,
        None => JsonView::Object(Map::empty()),
    }
}

/// What a method of a caller comes to on the Lua side. The caller's own session
/// and context are the only identity that Lua is given; the context argument
/// stands for [`context_view`] of that caller.
pub open spec fn lua_step_view(
    caller: CallerView,
    method: Seq<char>,
    params: JsonView,
) -> LuaStepView {
    if method == "tools/list"@ {
        LuaStepView::Call(
            LuaCallView {
                function: "list_tools"@,
                args: seq![LuaArgView::Text(caller.session_uuid)],
                shape: LuaReplyShape::List(LuaList::Tools),
            },
        )
    } else if method == "tools/call"@ {
        match text_member(params, "name"@) {
            None => LuaStepView::Refuse("tools/call missing name"@),
            Some(name) => LuaStepView::Call(
                LuaCallView {
                    function: "call_tool"@,
                    args: seq![
                        LuaArgView::Text(name),
                        LuaArgView::Data(arguments_of(params)),
                        LuaArgView::Context,
                        LuaArgView::Callback,
                    ],
                    shape: LuaReplyShape::ToolCallback,
                },
            ),
        }
    } else if method == "prompts/list"@ {
        LuaStepView::Call(
            LuaCallView {
                function: "list_prompts"@,
                args: Seq::empty(),
                shape: LuaReplyShape::List(LuaList::Prompts),
            },
        )
    } else if method == "prompts/get"@ {
        match text_member(params, "name"@) {
            None => LuaStepView::Refuse("prompts/get missing name"@),
            Some(name) => LuaStepView::Call(
                LuaCallView {
                    function: "get_prompt"@,
                    args: seq![LuaArgView::Text(name), LuaArgView::Data(arguments_of(params))],
                    shape: LuaReplyShape::Prompt,
                },
            ),
        }
    } else if method == "resources/templates/list"@ {
        LuaStepView::Call(
            LuaCallView {
                function: "list_resource_templates"@,
                args: Seq::empty(),
                shape: LuaReplyShape::List(LuaList::ResourceTemplates),
            },
        )
    } else if method == "resources/read"@ {
        match text_member(params, "uri"@) {
            None => LuaStepView::Refuse("resources/read missing uri"@),
            Some(uri) => LuaStepView::Call(
                LuaCallView {
                    function: "read_resource"@,
                    args: seq![
                        LuaArgView::Text(uri),
                        LuaArgView::Context,
                        LuaArgView::Callback,
                    ],
                    shape: LuaReplyShape::ResourceCallback,
                },
            ),
        }
    } else {
        LuaStepView::Reply(ReplyView::error(-32601, "method not found: "@ + method))
    }
}

fn call_of(function: &str, args: Vec<LuaArg>, shape: LuaReplyShape) -> (r: LuaStep)
    ensures
        r@ == LuaStepView::Call(
            LuaCallView { function: function@, args: args_view(args@), shape },
        ),
{
    LuaStep::Call(LuaCall { function: function.to_owned(), args, shape })
}

fn arguments(params: &Json) -> (r: Json)
    ensures
        r@ == arguments_of(params@),
{
    match params.get("arguments") {
        Some(arguments) => arguments.clone(),
        None => Json::empty_object(),
    }
}

/// Decides what a method of an authorized caller comes to on the Lua side.
pub fn lua_step(caller: &McpCaller, method: &str, params: &Json) -> (r: LuaStep)
    ensures
        r@ == lua_step_view(caller@, method@, params@),
{
    let mut args: Vec<LuaArg> = Vec::new();
    if same_text(method, "tools/list") {
        args.push(LuaArg::Text(caller.session_uuid.clone()));
        assert(args_view(args@) =~= seq![LuaArgView::Text(caller@.session_uuid)]);
        return call_of("list_tools", args, LuaReplyShape::List(LuaList::Tools));
    }
    if same_text(method, "tools/call") {
        let name = match params.get_str("name") {
            Some(name) => name,
            None => {
                return LuaStep::Refuse("tools/call missing name".to_owned());
            },
        };
        args.push(LuaArg::Text(name.to_owned()));
        args.push(LuaArg::Data(arguments(params)));
        args.push(LuaArg::Context);
        args.push(LuaArg::Callback);
        assert(args_view(args@) =~= seq![
            LuaArgView::Text(name@),
            LuaArgView::Data(arguments_of(params@)),
            LuaArgView::Context,
            LuaArgView::Callback,
        ]);
        return call_of("call_tool", args, LuaReplyShape::ToolCallback);
    }
    if same_text(method, "prompts/list") {
        assert(args_view(args@) =~= Seq::empty());
        return call_of("list_prompts", args, LuaReplyShape::List(LuaList::Prompts));
    }
    if same_text(method, "prompts/get") {
        let name = match params.get_str("name") {
            Some(name) => name,
            None => {
                return LuaStep::Refuse("prompts/get missing name".to_owned());
            },
        };
        args.push(LuaArg::Text(name.to_owned()));
        args.push(LuaArg::Data(arguments(params)));
        assert(args_view(args@) =~= seq![
            LuaArgView::Text(name@),
            LuaArgView::Data(arguments_of(params@)),
        ]);
        return call_of("get_prompt", args, LuaReplyShape::Prompt);
    }
    if same_text(method, "resources/templates/list") {
        assert(args_view(args@) =~= Seq::empty());
        return call_of("list_resource_templates", args, LuaReplyShape::List(LuaList::ResourceTemplates));
    }
    if same_text(method, "resources/read") {
        let uri = match params.get_str("uri") {
            Some(uri) => uri,
            None => {
                return LuaStep::Refuse("resources/read missing uri".to_owned());
            },
        };
        args.push(LuaArg::Text(uri.to_owned()));
        args.push(LuaArg::Context);
        args.push(LuaArg::Callback);
        assert(args_view(args@) =~= seq![
            LuaArgView::Text(uri@),
            LuaArgView::Context,
            LuaArgView::Callback,
        ]);
        return call_of("read_resource", args, LuaReplyShape::ResourceCallback);
    }
    LuaStep::Reply(
        McpHttpReply::error(-32601, join("method not found: ", method).as_str()),
    )
}

/// The error value that Lua code gives back.
#[derive(Debug)]
pub enum LuaErrorValue {
    /// No error.
    Nil,
    /// A Lua string, and its text where it is UTF-8.
    Text(Option<String>),
    /// Any other value, as it prints.
    Other(String),
}

/// The message of an error value. A string that is not UTF-8 counts as none.
pub open spec fn error_message(err: LuaErrorValue) -> Option<Seq<char>> {
    match err {
        LuaErrorValue::Nil => None,
        LuaErrorValue::Text(s) => text_view(s),
        LuaErrorValue::Other(s) => Some(s@),
    }
}

/// The message of an error value.
pub fn err_string(err: LuaErrorValue) -> (r: Option<String>)
    ensures
        text_view(r) == error_message(err),
{
    match err {
        LuaErrorValue::Nil => None,
        LuaErrorValue::Text(s) => s,
        LuaErrorValue::Other(s) => Some(s),
    }
}

/// The value, or the empty list where Lua gave none that is JSON.
pub open spec fn or_empty_list(value: Option<JsonView>) -> JsonView {
    match value {
        Some(value) => value,
        None => JsonView::Array(Seq::empty()),
    }
}

fn list_or_empty(value: Option<Json>) -> (r: Json)
    ensures
        r@ == or_empty_list(json_view(value)),
{
    match value {
        Some(value) => value,
        None => {
            let r = Json::Array(Vec::new());
            assert(r@ == JsonView::Array(Seq::empty()));
            r
        },
    }
}

/// The member under which a returned list stands in its result.
pub open spec fn list_member(list: LuaList) -> Seq<char> {
    match list {
        LuaList::Tools => "tools"@,
        LuaList::Prompts => "prompts"@,
        LuaList::ResourceTemplates => "resourceTemplates"@,
    }
}

/// The reply with a list that a Lua function returned; nothing where that is
/// not JSON.
pub open spec fn list_reply_view(list: LuaList, value: Option<JsonView>) -> Option<ReplyView> {
    match value {
        Some(value) => Some(
            ReplyView::result(JsonView::Object(map![list_member(list) => value])),
        ),
        None => None,
    }
}

/// The reply with a list that a Lua function returned; nothing where that is
/// not JSON.
pub fn list_reply(list: LuaList, value: Option<Json>) -> (r: Option<McpHttpReply>)
    ensures
        maybe_reply(r) == list_reply_view(list, json_view(value)),
{
    let name = match list {
        LuaList::Tools => "tools",
        LuaList::Prompts => "prompts",
        LuaList::ResourceTemplates => "resourceTemplates",
    };
    match value {
        Some(value) => Some(McpHttpReply::result(Json::empty_object().with(name, value))),
        None => None,
    }
}

/// The reply of a tool: its error, else its content and whether the tool says
/// that it failed.
pub open spec fn tool_reply_view(
    content: Option<JsonView>,
    err: Option<Seq<char>>,
    is_error: bool,
) -> ReplyView {
    match err {
        Some(message) => ReplyView::error(-32000, message),
        None => ReplyView::result(
            JsonView::Object(
                map![
                    "content"@ => or_empty_list(content),
                    "isError"@ => JsonView::Bool(is_error),
                ],
            ),
        ),
    }
}

/// The reply of a tool that called back. `is_error` is the flag that it gave,
/// where that was a boolean.
pub fn tool_reply(content: Option<Json>, err: LuaErrorValue, is_error: Option<bool>) -> (r:
    McpHttpReply)
    ensures
        r@ == tool_reply_view(
            json_view(content),
            error_message(err),
            is_error matches Some(flag) && flag,
        ),
{
    match err_string(err) {
        Some(message) => McpHttpReply::error(-32000, message.as_str()),
        None => {
            let flag: bool = match is_error {
                Some(flag) => flag,
                None => false,
            };
            McpHttpReply::result(
                Json::empty_object().with("content", list_or_empty(content)).with(
                    "isError",
                    Json::Bool(flag),
                ),
            )
        },
    }
}

/// The reply of a resource: its error, else its contents.
pub open spec fn resource_reply_view(
    contents: Option<JsonView>,
    err: Option<Seq<char>>,
) -> ReplyView {
    match err {
        Some(message) => ReplyView::error(-32002, message),
        None => ReplyView::result(
            JsonView::Object(map!["contents"@ => or_empty_list(contents)]),
        ),
    }
}

/// The reply of a resource that called back.
pub fn resource_reply(contents: Option<Json>, err: LuaErrorValue) -> (r: McpHttpReply)
    ensures
        r@ == resource_reply_view(json_view(contents), error_message(err)),
{
    match err_string(err) {
        Some(message) => McpHttpReply::error(-32002, message.as_str()),
        None => McpHttpReply::result(
            Json::empty_object().with("contents", list_or_empty(contents)),
        ),
    }
}

/// The reply of a prompt: its error, else what it returned; nothing where that
/// is not JSON.
pub open spec fn prompt_reply_view(
    value: Option<JsonView>,
    err: Option<Seq<char>>,
) -> Option<ReplyView> {
    match err {
        Some(message) => Some(ReplyView::error(-32000, message)),
        None => match value {
            Some(value) => Some(ReplyView::result(value)),
            None => None,
        },
    }
}

/// The reply of a prompt; nothing where it returned what is not JSON.
pub fn prompt_reply(value: Option<Json>, err: LuaErrorValue) -> (r: Option<McpHttpReply>)
    ensures
        maybe_reply(r) == prompt_reply_view(json_view(value), error_message(err)),
{
    match err_string(err) {
        Some(message) => Some(McpHttpReply::error(-32000, message.as_str())),
        None => match value {
            Some(value) => Some(McpHttpReply::result(value)),
            None => None,
        },
    }
}

/// What a Lua function answers.
#[derive(Debug)]
pub enum LuaAnswer {
    /// The call failed; this is how the failure prints.
    Failed(String),
    /// It gave, by returning or by calling back, a value, or why that is not
    /// JSON, an error value, and a flag, if that is a boolean.
    Gave(Result<Json, String>, LuaErrorValue, Option<bool>),
}

/// The value that Lua gave, where it is JSON.
pub open spec fn given_view(value: Result<Json, String>) -> Option<JsonView> {
    match value {
        Ok(value) => Some(value@),
        Err(_) => None,
    }
}

/// The reply in an option.
pub open spec fn maybe_reply(r: Option<McpHttpReply>) -> Option<ReplyView> {
    match r {
        Some(reply) => Some(reply@),
        None => None,
    }
}

/// The reply that an answer of Lua makes; nothing where none is sent. A call
/// that fails is answered for a prompt alone.
pub open spec fn lua_reply_view(shape: LuaReplyShape, answer: LuaAnswer) -> Option<ReplyView> {
    match answer {
        LuaAnswer::Failed(message) => if shape is Prompt {
            Some(ReplyView::error(-32000, message@))
        } else {
            None
        },
        LuaAnswer::Gave(value, err, flag) => match shape {
            LuaReplyShape::List(list) => list_reply_view(list, given_view(value)),
            LuaReplyShape::Prompt => prompt_reply_view(given_view(value), error_message(err)),
            LuaReplyShape::ToolCallback => Some(
                tool_reply_view(
                    given_view(value),
                    error_message(err),
                    flag matches Some(flag) && flag,
                ),
            ),
            LuaReplyShape::ResourceCallback => Some(
                resource_reply_view(given_view(value), error_message(err)),
            ),
        },
    }
}

/// The reply that an answer of Lua makes; nothing where none is sent.
pub fn lua_reply(shape: LuaReplyShape, answer: LuaAnswer) -> (r: Option<McpHttpReply>)
    ensures
        maybe_reply(r) == lua_reply_view(shape, answer),
{
    match answer {
        LuaAnswer::Failed(message) => match shape {
            LuaReplyShape::Prompt => Some(McpHttpReply::error(-32000, message.as_str())),
            _ => None,
        },
        LuaAnswer::Gave(value, err, flag) => {
            let value = match value {
                Ok(value) => Some(value),
                Err(_) => None,
            };
            match shape {
                LuaReplyShape::List(list) => list_reply(list, value),
                LuaReplyShape::Prompt => prompt_reply(value, err),
                LuaReplyShape::ToolCallback => Some(tool_reply(value, err, flag)),
                LuaReplyShape::ResourceCallback => Some(resource_reply(value, err)),
            }
        },
    }
}

/// The place of a reply that is sent once: the first to take it gets it.
#[derive(Debug)]
pub struct ReplySlot<T> {
    reply: Option<T>,
}

impl<T> View for ReplySlot<T> {
    type V = Option<T>;

    closed spec fn view(&self) -> Option<T> {
        self.reply
    }
}

impl<T> ReplySlot<T> {
    /// A slot that holds a reply.
    pub fn new(reply: T) -> (r: ReplySlot<T>)
        ensures
            r@ == Some(reply),
    {
        ReplySlot { reply: Some(reply) }
    }

    /// Takes the reply out, the first time it is called.
    pub fn take(&mut self) -> (r: Option<T>)
        ensures
            r == old(self)@,
            final(self)@ is None,
    {
        self.reply.take()
    }
}

/// How far the call of a Lua function got.
#[derive(Debug)]
pub enum LuaRun {
    /// Its arguments could not be encoded for Lua; this is why.
    NotEncoded(String),
    /// There is no such function; this is why.
    NoFunction(String),
    /// Its callback could not be created; this is why.
    NoCallback(String),
    /// It has its answer.
    Answered(LuaAnswer),
    /// It calls back later.
    Waiting,
}

/// What the dispatch of a method through Lua comes to.
#[derive(Debug)]
pub enum LuaDispatch {
    /// This reply is sent.
    Reply(McpHttpReply),
    /// The callback sends the reply.
    Waiting,
    /// No reply is sent; this is why.
    Refused(String),
}

/// What a dispatch through Lua is.
pub enum LuaDispatchView {
    Reply(ReplyView),
    Waiting,
    Refused(Seq<char>),
}

impl View for LuaDispatch {
    type V = LuaDispatchView;

    open spec fn view(&self) -> LuaDispatchView {
        match self {
            LuaDispatch::Reply(reply) => LuaDispatchView::Reply(reply@),
            LuaDispatch::Waiting => LuaDispatchView::Waiting,
            LuaDispatch::Refused(message) => LuaDispatchView::Refused(message@),
        }
    }
}

/// The text that tells of a failed call of a Lua function.
pub open spec fn call_failure(function: Seq<char>, cause: Seq<char>) -> Seq<char> {
    "mcp."@ + function + ": "@ + cause
}

/// The text that tells of a context that could not be encoded for Lua.
pub open spec fn context_failure(cause: Seq<char>) -> Seq<char> {
    "encode caller context: "@ + cause
}

/// The text that tells of arguments that could not be encoded for Lua. Tools
/// and prompts are the ones that take any.
pub open spec fn arguments_failure(shape: LuaReplyShape, cause: Seq<char>) -> Seq<char> {
    if shape is Prompt {
        "encode prompt arguments: "@ + cause
    } else {
        "encode tool arguments: "@ + cause
    }
}

/// The text that tells of a callback that could not be created. Tools and
/// resources are the ones that call back.
pub open spec fn callback_failure(shape: LuaReplyShape, cause: Seq<char>) -> Seq<char> {
    if shape is ResourceCallback {
        "create resources/read callback: "@ + cause
    } else {
        "create tools/call callback: "@ + cause
    }
}

/// Why an answer of a Lua function makes no reply: the call failed, or the
/// value that it gave is not JSON.
pub open spec fn answer_failure(function: Seq<char>, answer: LuaAnswer) -> Seq<char> {
    match answer {
        LuaAnswer::Failed(cause) => call_failure(function, cause@),
        LuaAnswer::Gave(Err(cause), _, _) => "convert Lua MCP value: "@ + cause@,
        LuaAnswer::Gave(Ok(_), _, _) => Seq::empty(),
    }
}

/// What the run of a Lua call comes to: the reply that its answer makes, or,
/// where it makes none, why.
pub open spec fn run_view(function: Seq<char>, shape: LuaReplyShape, run: LuaRun) -> LuaDispatchView {
    match run {
        LuaRun::NotEncoded(cause) => LuaDispatchView::Refused(arguments_failure(shape, cause@)),
        LuaRun::NoFunction(cause) => LuaDispatchView::Refused(call_failure(function, cause@)),
        LuaRun::NoCallback(cause) => LuaDispatchView::Refused(callback_failure(shape, cause@)),
        LuaRun::Waiting => LuaDispatchView::Waiting,
        LuaRun::Answered(answer) => match lua_reply_view(shape, answer) {
            Some(reply) => LuaDispatchView::Reply(reply),
            None => LuaDispatchView::Refused(answer_failure(function, answer)),
        },
    }
}

fn failed_call(function: &str, cause: &str) -> (r: String)
    ensures
        r@ == call_failure(function@, cause@),
{
    let mut out = join("mcp.", function);
    out.append(": ");
    out.append(cause);
    out
}

fn settle_run(function: &str, shape: LuaReplyShape, run: LuaRun) -> (r: LuaDispatch)
    ensures
        r@ == run_view(function@, shape, run),
{
    match run {
        LuaRun::NotEncoded(cause) => {
            let what = match shape {
                LuaReplyShape::Prompt => "encode prompt arguments: ",
                _ => "encode tool arguments: ",
            };
            LuaDispatch::Refused(join(what, cause.as_str()))
        },
        LuaRun::NoFunction(cause) => LuaDispatch::Refused(failed_call(function, cause.as_str())),
        LuaRun::NoCallback(cause) => {
            let what = match shape {
                LuaReplyShape::ResourceCallback => "create resources/read callback: ",
                _ => "create tools/call callback: ",
            };
            LuaDispatch::Refused(join(what, cause.as_str()))
        },
        LuaRun::Waiting => LuaDispatch::Waiting,
        LuaRun::Answered(answer) => {
            let failure = match &answer {
                LuaAnswer::Failed(cause) => failed_call(function, cause.as_str()),
                LuaAnswer::Gave(Err(cause), _, _) => join("convert Lua MCP value: ", cause.as_str()),
                LuaAnswer::Gave(Ok(_), _, _) => String::new(),
            };
            match lua_reply(shape, answer) {
                Some(reply) => LuaDispatch::Reply(reply),
                None => LuaDispatch::Refused(failure),
            }
        },
    }
}

/// What `encode` may give for the context of a caller.
pub open spec fn encodes_context<C, E: FnOnce(Json) -> Result<C, String>>(
    caller: CallerView,
    encode: E,
    encoded: Result<C, String>,
) -> bool {
    exists|context: Json|
        context@ == context_view(caller) && #[trigger] call_ensures(encode, (context,), encoded)
}

/// Dispatches a method of an authorized caller through Lua. `encode` turns the
/// caller's context into what Lua takes; a context that cannot be encoded ends
/// the dispatch of any method. `run` makes the one call that the method asks
/// for, if it asks for any, with the encoded context at hand.
///
/// Each is asked at most once, `encode` for the context of the caller and `run`
/// for the call of the method: the identity that Lua is given is that of the
/// caller, and no other session is looked up.
pub fn dispatch_lua_mcp<
    C,
    E: FnOnce(Json) -> Result<C, String>,
    F: FnOnce(LuaCall, C) -> LuaRun,
>(caller: &McpCaller, method: &str, params: &Json, encode: E, run: F) -> (r: LuaDispatch)
    requires
        forall|context: Json|
            context@ == context_view(caller@) ==> #[trigger] call_requires(encode, (context,)),
        forall|call: LuaCall, context: C|
            lua_step_view(caller@, method@, params@) == LuaStepView::Call(call@)
                && encodes_context(caller@, encode, Ok::<C, String>(context))
                ==> #[trigger] call_requires(run, (call, context)),
    ensures
        exists|encoded: Result<C, String>|
            {
                &&& #[trigger] encodes_context(caller@, encode, encoded)
                &&& match encoded {
                    Err(cause) => r@ == LuaDispatchView::Refused(context_failure(cause@)),
                    Ok(context) => match lua_step_view(caller@, method@, params@) {
                        LuaStepView::Reply(reply) => r@ == LuaDispatchView::Reply(reply),
                        LuaStepView::Refuse(message) => r@ == LuaDispatchView::Refused(message),
                        LuaStepView::Call(call) => exists|made: LuaCall, outcome: LuaRun|
                            {
                                &&& made@ == call
                                &&& #[trigger] call_ensures(run, (made, context), outcome)
                                &&& r@ == run_view(call.function, call.shape, outcome)
                            },
                    },
                }
            },
{
    let encoded = encode(caller_context(caller));
    assert(encodes_context(caller@, encode, encoded));
    match encoded {
        Err(cause) => LuaDispatch::Refused(join("encode caller context: ", cause.as_str())),
        Ok(context) => match lua_step(caller, method, params) {
            LuaStep::Reply(reply) => LuaDispatch::Reply(reply),
            LuaStep::Refuse(message) => LuaDispatch::Refused(message),
            LuaStep::Call(call) => {
                let function = call.function.clone();
                let shape = call.shape;
                let outcome = run(call, context);
                settle_run(function.as_str(), shape, outcome)
            },
        },
    }
}

/// A name that only the identity of a caller may take in its context.
pub open spec fn identity_name(name: Seq<char>) -> bool {
    name == "session_uuid"@ || name == "hub_id"@
}

/// A context with further entries put in, one after the other, but for those
/// under an identity name.
pub open spec fn with_extras(
    context: Map<Seq<char>, Seq<char>>,
    extras: Seq<(String, String)>,
) -> Map<Seq<char>, Seq<char>>
    decreases extras.len(),
{
    if extras.len() == 0 {
        context
    } else {
        let before = with_extras(context, extras.drop_last());
        if identity_name(extras.last().0@) {
            before
        } else {
            before.insert(extras.last().0@, extras.last().1@)
        }
    }
}

/// The caller that Lua options name: the session is required, the hub may be
/// left out, and further context never stands in for the identity.
pub open spec fn options_caller(
    session_uuid: Option<Seq<char>>,
    hub_id: Option<Seq<char>>,
    extras: Seq<(String, String)>,
) -> Option<CallerView> {
    match session_uuid {
        None => None,
        Some(session_uuid) => {
            let hub_id = match hub_id {
                Some(hub_id) => hub_id,
                None => Seq::empty(),
            };
            let base = CallerView::of(session_uuid, hub_id);
            Some(CallerView { context: with_extras(base.context, extras), ..base })
        },
    }
}

/// The caller that Lua options name, or what is wrong with them.
pub fn caller_from_options(
    session_uuid: Option<String>,
    hub_id: Option<String>,
    extras: Vec<(String, String)>,
) -> (r: Result<McpCaller, String>)
    ensures
        match r {
            Ok(caller) => options_caller(text_view(session_uuid), text_view(hub_id), extras@)
                == Some(caller@),
            Err(message) => {
                &&& session_uuid is None
                &&& message@ == "hub.issue_mcp_caller: session_uuid required"@
            },
        },
{
    let session_uuid = match session_uuid {
        Some(session_uuid) => session_uuid,
        None => {
            return Err("hub.issue_mcp_caller: session_uuid required".to_owned());
        },
    };
    let hub_id = match hub_id {
        Some(hub_id) => hub_id,
        None => String::new(),
    };
    let mut caller = McpCaller::new(session_uuid.as_str(), hub_id.as_str());
    let ghost base = caller@;
    let mut i: usize = 0;
    while i < extras.len()
        invariant
            i <= extras@.len(),
            caller@ == (CallerView {
                context: with_extras(base.context, extras@.take(i as int)),
                ..base
            }),
        decreases extras.len() - i,
    {
        let name = extras[i].0.as_str();
        assert(extras@.take(i + 1).drop_last() =~= extras@.take(i as int));
        if !same_text(name, "session_uuid") && !same_text(name, "hub_id") {
            caller.context.insert(extras[i].0.clone(), extras[i].1.clone());
        }
        i += 1;
    }
    assert(extras@.take(extras@.len() as int) =~= extras@);
    Ok(caller)
}

/// The fields of the Lua table for an issued credential.
pub open spec fn issued_fields_view(issued: IssuedView) -> Map<Seq<char>, Seq<char>> {
    map![
        "url"@ => issued.url,
        "token"@ => issued.token,
        "url_env"@ => BOTSTER_MCP_URL_ENV@,
        "token_env"@ => BOTSTER_MCP_TOKEN_ENV@,
    ]
}

/// The fields of the Lua table for an issued credential.
pub fn issued_fields(issued: &IssuedMcpCaller) -> (r: StringTable)
    ensures
        r@ == issued_fields_view(issued@),
{
    let mut fields = StringTable::new();
    fields.insert("url".to_owned(), issued.url.clone());
    fields.insert("token".to_owned(), issued.token.as_str().to_owned());
    fields.insert("url_env".to_owned(), issued.url_env().to_owned());
    fields.insert("token_env".to_owned(), issued.token_env().to_owned());
    fields
}

/// What `hub.issue_mcp_caller` gives back for options and the fresh token at
/// hand: the fields of the credential, or what is wrong.
pub open spec fn issue_for_options(
    callers: crate::registry::RegistryView,
    caller: Option<CallerView>,
    fresh: Seq<char>,
) -> (crate::registry::RegistryView, Result<Map<Seq<char>, Seq<char>>, Seq<char>>) {
    match caller {
        None => (callers, Err("hub.issue_mcp_caller: session_uuid required"@)),
        Some(caller) => {
            let (next, answer) = callers.issue(caller, fresh);
            match answer {
                Ok(issued) => (next, Ok(issued_fields_view(issued))),
                Err(_) => (next, Err("shared MCP HTTP listener is not running"@)),
            }
        },
    }
}

/// The fields or the message of an answer.
pub open spec fn fields_view(r: Result<StringTable, String>) -> Result<
    Map<Seq<char>, Seq<char>>,
    Seq<char>,
> {
    match r {
        Ok(fields) => Ok(fields@),
        Err(message) => Err(message@),
    }
}

/// Issues or reuses a credential for the caller that Lua options name.
pub fn issue_mcp_caller(
    callers: &mut McpCallerRegistry,
    session_uuid: Option<String>,
    hub_id: Option<String>,
    extras: Vec<(String, String)>,
) -> (r: Result<StringTable, String>)
    ensures
        exists|secret: Seq<u8>|
            secret.len() == CALLER_TOKEN_BYTES && (final(callers)@, fields_view(r))
                == issue_for_options(
                old(callers)@,
                options_caller(text_view(session_uuid), text_view(hub_id), extras@),
                #[trigger] token_text(secret),
            ),
{
    match caller_from_options(session_uuid, hub_id, extras) {
        Ok(caller) => match callers.issue(caller) {
            Ok(issued) => Ok(issued_fields(&issued)),
            Err(e) => Err(e.message()),
        },
        Err(message) => {
            let ghost any = Seq::new(CALLER_TOKEN_BYTES as nat, |i: int| 0u8);
            assert(token_text(any) == token_text(any));
            Err(message)
        },
    }
}

/// The context that Lua options give cannot stand in for a caller's identity.
pub proof fn options_cannot_change_the_identity(
    session_uuid: Seq<char>,
    hub_id: Option<Seq<char>>,
    extras: Seq<(String, String)>,
)
    ensures
        ({
            let caller = options_caller(Some(session_uuid), hub_id, extras)->0;
            &&& caller.session_uuid == session_uuid
            &&& caller.context["session_uuid"@] == session_uuid
            &&& caller.context["hub_id"@] == caller.hub_id
        }),
{
    reveal_strlit("session_uuid");
    reveal_strlit("hub_id");
    assert("session_uuid"@.len() != "hub_id"@.len());
    let caller = options_caller(Some(session_uuid), hub_id, extras)->0;
    lemma_extras_keep_identity(CallerView::of(session_uuid, caller.hub_id).context, extras);
}

proof fn lemma_extras_keep_identity(
    context: Map<Seq<char>, Seq<char>>,
    extras: Seq<(String, String)>,
)
    ensures
        with_extras(context, extras)["session_uuid"@] == context["session_uuid"@],
        with_extras(context, extras)["hub_id"@] == context["hub_id"@],
    decreases extras.len(),
{
    if extras.len() > 0 {
        lemma_extras_keep_identity(context, extras.drop_last());
    }
}

/// Every call that a method makes on the Lua side gives Lua the identity of
/// its own caller: a tool list is asked for by the caller's session, and a
/// context names the caller's session and hub.
pub proof fn lua_calls_carry_the_callers_identity(
    caller: CallerView,
    method: Seq<char>,
    params: JsonView,
)
    ensures
        lua_step_view(caller, method, params) matches LuaStepView::Call(call) ==> {
            &&& call.shape == LuaReplyShape::List(LuaList::Tools) ==> call.args
                == seq![LuaArgView::Text(caller.session_uuid)]
            &&& call.shape == LuaReplyShape::ToolCallback ==> call.args[2] == LuaArgView::Context
            &&& call.shape == LuaReplyShape::ResourceCallback ==> call.args[1]
                == LuaArgView::Context
        },
        text_member(context_view(caller), "session_uuid"@) == Some(caller.session_uuid),
        text_member(context_view(caller), "hub_id"@) == Some(caller.hub_id),
{
    crate::caller::lua_sees_the_callers_own_identity(caller, Seq::empty());
}

/// A reply that an answer of Lua makes has a result or an error, never both and
/// never neither; an answer with a value that is JSON makes one.
pub proof fn lua_replies_have_a_result_or_an_error(shape: LuaReplyShape, answer: LuaAnswer)
    ensures
        lua_reply_view(shape, answer) matches Some(reply) ==> (reply.result is Some) != (
        reply.error is Some),
        answer matches LuaAnswer::Gave(Ok(_), _, _) ==> lua_reply_view(shape, answer) is Some,
{
}

/// Every method that the Lua side does not know is answered with the JSON-RPC
/// code for a method that does not exist, and calls nothing.
pub proof fn unknown_methods_are_answered(caller: CallerView, method: Seq<char>, params: JsonView)
    requires
        method != "tools/list"@,
        method != "tools/call"@,
        method != "prompts/list"@,
        method != "prompts/get"@,
        method != "resources/templates/list"@,
        method != "resources/read"@,
    ensures
        lua_step_view(caller, method, params) == LuaStepView::Reply(
            ReplyView::error(-32601, "method not found: "@ + method),
        ),
{
}

/// The context that Lua gets names the caller's own session and hub, and has
/// every other entry of the caller's context under its name, as text.
pub proof fn the_lua_context_is_the_callers(caller: &McpCaller, r: Json, name: Seq<char>)
    requires
        call_ensures(caller_context, (caller,), r),
    ensures
        r@ is Object,
        member(r@, "session_uuid"@) == Some(JsonView::Text(caller.session_uuid@)),
        member(r@, "hub_id"@) == Some(JsonView::Text(caller.hub_id@)),
        name != "session_uuid"@ && name != "hub_id"@ ==> {
            &&& caller.context@.contains_key(name) ==> member(r@, name) == Some(
                JsonView::Text(caller.context@[name]),
            )
            &&& !caller.context@.contains_key(name) ==> member(r@, name) is None
        },
        context_view(caller@) == r@,
{
    crate::caller::lua_sees_the_callers_own_identity(caller@, name);
}

proof fn lemma_methods()
    ensures
        "tools/list"@ != "tools/call"@,
        "tools/list"@.len() == 10,
        "tools/call"@.len() == 10,
        "prompts/list"@.len() == 12,
        "prompts/get"@.len() == 11,
        "resources/templates/list"@.len() == 24,
        "resources/read"@.len() == 14,
{
    reveal_strlit("tools/list");
    reveal_strlit("tools/call");
    reveal_strlit("prompts/list");
    reveal_strlit("prompts/get");
    reveal_strlit("resources/templates/list");
    reveal_strlit("resources/read");
    assert("tools/list"@[6] == 'l');
    assert("tools/call"@[6] == 'c');
}

/// A list is asked for by its own function: the tools by the session of the
/// caller, the prompts and the resource templates of everybody.
pub proof fn lists_are_asked_for(caller: &McpCaller, method: &str, params: &Json, r: LuaStep)
    requires
        call_ensures(lua_step, (caller, method, params), r),
    ensures
        method@ == "tools/list"@ ==> (r matches LuaStep::Call(call) && {
            &&& call.function@ == "list_tools"@
            &&& call.args@.len() == 1
            &&& (call.args@[0] matches LuaArg::Text(text) && text@ == caller.session_uuid@)
            &&& call.shape == LuaReplyShape::List(LuaList::Tools)
        }),
        method@ == "prompts/list"@ ==> (r matches LuaStep::Call(call) && {
            &&& call.function@ == "list_prompts"@
            &&& call.args@.len() == 0
            &&& call.shape == LuaReplyShape::List(LuaList::Prompts)
        }),
        method@ == "resources/templates/list"@ ==> (r matches LuaStep::Call(call) && {
            &&& call.function@ == "list_resource_templates"@
            &&& call.args@.len() == 0
            &&& call.shape == LuaReplyShape::List(LuaList::ResourceTemplates)
        }),
{
    lemma_methods();
    if let LuaStep::Call(call) = r {
        assert(call@.args.len() == call.args@.len());
        if method@ == "tools/list"@ {
            assert(call@.args[0] == call.args@[0]@);
        }
    }
}

/// A tool is called by its name, with its own arguments, the context of the
/// caller and a callback; without a name it is not called.
pub proof fn a_tool_is_called_with_its_arguments(
    caller: &McpCaller,
    params: &Json,
    method: &str,
    r: LuaStep,
)
    requires
        method@ == "tools/call"@,
        call_ensures(lua_step, (caller, method, params), r),
    ensures
        member(params@, "name"@) matches Some(JsonView::Text(name)) ==> (r matches LuaStep::Call(
            call,
        ) && {
            &&& call.function@ == "call_tool"@
            &&& call.args@.len() == 4
            &&& (call.args@[0] matches LuaArg::Text(text) && text@ == name)
            &&& (call.args@[1] matches LuaArg::Data(data) && {
                &&& member(params@, "arguments"@) matches Some(arguments) ==> data@ == arguments
                &&& member(params@, "arguments"@) is None ==> data@ == JsonView::Object(Map::empty())
            })
            &&& call.args@[2] is Context
            &&& call.args@[3] is Callback
            &&& call.shape == LuaReplyShape::ToolCallback
        }),
        !(member(params@, "name"@) matches Some(JsonView::Text(_))) ==> (r matches LuaStep::Refuse(
            message,
        ) && message@ == "tools/call missing name"@),
{
    lemma_methods();
    if let LuaStep::Call(call) = r {
        assert(call@.args.len() == call.args@.len());
        assert(call@.args[0] == call.args@[0]@);
        assert(call@.args[1] == call.args@[1]@);
        assert(call@.args[2] == call.args@[2]@);
        assert(call@.args[3] == call.args@[3]@);
    }
}

/// A prompt is asked for by its name and with its own arguments; without a name
/// it is not asked for.
pub proof fn a_prompt_is_asked_for_with_its_arguments(
    caller: &McpCaller,
    params: &Json,
    method: &str,
    r: LuaStep,
)
    requires
        method@ == "prompts/get"@,
        call_ensures(lua_step, (caller, method, params), r),
    ensures
        member(params@, "name"@) matches Some(JsonView::Text(name)) ==> (r matches LuaStep::Call(
            call,
        ) && {
            &&& call.function@ == "get_prompt"@
            &&& call.args@.len() == 2
            &&& (call.args@[0] matches LuaArg::Text(text) && text@ == name)
            &&& (call.args@[1] matches LuaArg::Data(data) && {
                &&& member(params@, "arguments"@) matches Some(arguments) ==> data@ == arguments
                &&& member(params@, "arguments"@) is None ==> data@ == JsonView::Object(Map::empty())
            })
            &&& call.shape == LuaReplyShape::Prompt
        }),
        !(member(params@, "name"@) matches Some(JsonView::Text(_))) ==> (r matches LuaStep::Refuse(
            message,
        ) && message@ == "prompts/get missing name"@),
{
    lemma_methods();
    if let LuaStep::Call(call) = r {
        assert(call@.args.len() == call.args@.len());
        assert(call@.args[0] == call.args@[0]@);
        assert(call@.args[1] == call.args@[1]@);
    }
}

/// A resource is read by its URI, with the context of the caller and a
/// callback; without a URI it is not read.
pub proof fn a_resource_is_read_by_its_uri(
    caller: &McpCaller,
    params: &Json,
    method: &str,
    r: LuaStep,
)
    requires
        method@ == "resources/read"@,
        call_ensures(lua_step, (caller, method, params), r),
    ensures
        member(params@, "uri"@) matches Some(JsonView::Text(uri)) ==> (r matches LuaStep::Call(call)
            && {
            &&& call.function@ == "read_resource"@
            &&& call.args@.len() == 3
            &&& (call.args@[0] matches LuaArg::Text(text) && text@ == uri)
            &&& call.args@[1] is Context
            &&& call.args@[2] is Callback
            &&& call.shape == LuaReplyShape::ResourceCallback
        }),
        !(member(params@, "uri"@) matches Some(JsonView::Text(_))) ==> (r matches LuaStep::Refuse(
            message,
        ) && message@ == "resources/read missing uri"@),
{
    lemma_methods();
    if let LuaStep::Call(call) = r {
        assert(call@.args.len() == call.args@.len());
        assert(call@.args[0] == call.args@[0]@);
        assert(call@.args[1] == call.args@[1]@);
        assert(call@.args[2] == call.args@[2]@);
    }
}

/// Every other method is answered that it is not found, by its name.
pub proof fn other_methods_are_not_found(
    caller: &McpCaller,
    params: &Json,
    method: &str,
    r: LuaStep,
)
    requires
        method@ != "tools/list"@ && method@ != "tools/call"@,
        method@ != "prompts/list"@ && method@ != "prompts/get"@,
        method@ != "resources/templates/list"@ && method@ != "resources/read"@,
        call_ensures(lua_step, (caller, method, params), r),
    ensures
        r matches LuaStep::Reply(reply) && reply.result is None && (reply.error matches Some(error)
            && names_error(error@, -32601, "method not found: "@ + method@)),
{
    lemma_error_object(-32601, "method not found: "@ + method@);
}

/// The message of an error value is its text, or how it prints; nil and a
/// string that is no text have none.
pub proof fn an_error_value_is_its_message(err: LuaErrorValue, r: Option<String>)
    requires
        call_ensures(err_string, (err,), r),
    ensures
        match err {
            LuaErrorValue::Nil => r is None,
            LuaErrorValue::Text(None) => r is None,
            LuaErrorValue::Text(Some(text)) => r matches Some(message) && message@ == text@,
            LuaErrorValue::Other(text) => r matches Some(message) && message@ == text@,
        },
        error_message(err) == (match r {
            Some(message) => Some(message@),
            None => None,
        }),
{
}

/// A reply with an error of a code and a message, and no result.
pub open spec fn replies_error(reply: McpHttpReply, code: int, message: Seq<char>) -> bool {
    reply.result is None && (reply.error matches Some(error) && names_error(
        error@,
        code,
        message,
    ))
}

/// A reply with a result that is an object of one member, and no error.
pub open spec fn replies_member(reply: McpHttpReply, name: Seq<char>, value: JsonView) -> bool {
    reply.error is None && (reply.result matches Some(result) && only_members(
        result@,
        set![name],
    ) && member(result@, name) == Some(value))
}

/// The value that Lua gave, or the empty list where that was not JSON.
pub open spec fn given_or_empty(given: Option<JsonView>) -> JsonView {
    if given is Some {
        given->0
    } else {
        JsonView::Array(Seq::empty())
    }
}

/// A reply of a tool: its message as a server error; without one its content as
/// it gave it, whatever its flag, and its flag.
pub open spec fn replies_for_tool(
    reply: McpHttpReply,
    content: Option<JsonView>,
    message: Option<Seq<char>>,
    flag: bool,
) -> bool {
    &&& message matches Some(message) ==> replies_error(reply, -32000, message)
    &&& message is None ==> {
        &&& reply.error is None
        &&& reply.result is Some
        &&& only_members(reply.result->0@, set!["content"@, "isError"@])
        &&& member(reply.result->0@, "content"@) == Some(given_or_empty(content))
        &&& member(reply.result->0@, "isError"@) == Some(JsonView::Bool(flag))
    }
}

/// A reply of a resource: its message as a resource error; without one its
/// contents as it gave them.
pub open spec fn replies_for_resource(
    reply: McpHttpReply,
    contents: Option<JsonView>,
    message: Option<Seq<char>>,
) -> bool {
    &&& message matches Some(message) ==> replies_error(reply, -32002, message)
    &&& message is None ==> replies_member(reply, "contents"@, given_or_empty(contents))
}

proof fn lemma_tool_reply(
    reply: McpHttpReply,
    content: Option<JsonView>,
    message: Option<Seq<char>>,
    flag: bool,
)
    requires
        reply@ == tool_reply_view(content, message, flag),
    ensures
        replies_for_tool(reply, content, message, flag),
{
    reveal_strlit("content");
    reveal_strlit("isError");
    assert("content"@[0] == 'c');
    assert("isError"@[0] == 'i');
    match message {
        Some(message) => lemma_error_object(-32000, message),
        None => {
            assert(only_members(reply.result->0@, set!["content"@, "isError"@]));
        },
    }
}

proof fn lemma_resource_reply(
    reply: McpHttpReply,
    contents: Option<JsonView>,
    message: Option<Seq<char>>,
)
    requires
        reply@ == resource_reply_view(contents, message),
    ensures
        replies_for_resource(reply, contents, message),
{
    match message {
        Some(message) => lemma_error_object(-32002, message),
        None => {
            assert(only_members(reply.result->0@, set!["contents"@]));
        },
    }
}

/// A tool that calls back is replied with what it gave.
pub proof fn a_tool_is_replied_with_what_it_gave(
    content: Option<Json>,
    err: LuaErrorValue,
    flag: Option<bool>,
    message: Option<String>,
    reply: McpHttpReply,
)
    requires
        call_ensures(err_string, (err,), message),
        call_ensures(tool_reply, (content, err, flag), reply),
    ensures
        replies_for_tool(
            reply,
            if content is Some {
                Some(content->0@)
            } else {
                None
            },
            if message is Some {
                Some(message->0@)
            } else {
                None
            },
            flag == Some(true),
        ),
{
    lemma_tool_reply(reply, json_view(content), error_message(err), flag == Some(true));
}

/// A resource that calls back is replied with what it gave.
pub proof fn a_resource_is_replied_with_what_it_gave(
    contents: Option<Json>,
    err: LuaErrorValue,
    message: Option<String>,
    reply: McpHttpReply,
)
    requires
        call_ensures(err_string, (err,), message),
        call_ensures(resource_reply, (contents, err), reply),
    ensures
        replies_for_resource(
            reply,
            if contents is Some {
                Some(contents->0@)
            } else {
                None
            },
            if message is Some {
                Some(message->0@)
            } else {
                None
            },
        ),
{
    lemma_resource_reply(reply, json_view(contents), error_message(err));
}

/// The reply to a tool callback that gave a JSON value has that value as its
/// content and the flag as its `isError`, where the error value has no message;
/// where it has one, the reply is that error.
pub proof fn a_tool_callback_keeps_its_content(
    v: Json,
    err: LuaErrorValue,
    flag: Option<bool>,
    message: Option<String>,
    reply: Option<McpHttpReply>,
)
    requires
        call_ensures(err_string, (err,), message),
        call_ensures(
            lua_reply,
            (LuaReplyShape::ToolCallback, LuaAnswer::Gave(Ok(v), err, flag)),
            reply,
        ),
    ensures
        reply is Some,
        message is None ==> {
            let view = lua_reply_view(
                LuaReplyShape::ToolCallback,
                LuaAnswer::Gave(Ok(v), err, flag),
            )->0;
            &&& member(view.result->0, "content"@) == Some(v@)
            &&& member(view.result->0, "isError"@) == Some(JsonView::Bool(flag == Some(true)))
            &&& reply->0.result is Some
            &&& member(reply->0.result->0@, "content"@) == Some(v@)
            &&& member(reply->0.result->0@, "isError"@) == Some(
                JsonView::Bool(flag == Some(true)),
            )
        },
        replies_for_tool(
            reply->0,
            Some(v@),
            if message is Some {
                Some(message->0@)
            } else {
                None
            },
            flag == Some(true),
        ),
{
    lemma_tool_reply(reply->0, Some(v@), error_message(err), flag == Some(true));
}

/// The reply to an answer of Lua, for each way in which it answers. Where it
/// gave JSON, that is what the reply holds.
pub proof fn an_answer_is_replied_with_what_lua_gave(
    shape: LuaReplyShape,
    given: Result<Json, String>,
    err: LuaErrorValue,
    flag: Option<bool>,
    message: Option<String>,
    reply: Option<McpHttpReply>,
)
    requires
        call_ensures(err_string, (err,), message),
        call_ensures(lua_reply, (shape, LuaAnswer::Gave(given, err, flag)), reply),
    ensures
        ({
            let value = if given is Ok {
                Some(given->Ok_0@)
            } else {
                None
            };
            let text = if message is Some {
                Some(message->0@)
            } else {
                None
            };
            match shape {
                LuaReplyShape::List(LuaList::Tools) => match value {
                    Some(value) => reply is Some && replies_member(reply->0, "tools"@, value),
                    None => reply is None,
                },
                LuaReplyShape::List(LuaList::Prompts) => match value {
                    Some(value) => reply is Some && replies_member(reply->0, "prompts"@, value),
                    None => reply is None,
                },
                LuaReplyShape::List(LuaList::ResourceTemplates) => match value {
                    Some(value) => reply is Some && replies_member(
                        reply->0,
                        "resourceTemplates"@,
                        value,
                    ),
                    None => reply is None,
                },
                LuaReplyShape::Prompt => match text {
                    Some(text) => reply is Some && replies_error(reply->0, -32000, text),
                    None => match value {
                        Some(value) => reply is Some && reply->0.error is None && (
                        reply->0.result matches Some(result) && result@ == value),
                        None => reply is None,
                    },
                },
                LuaReplyShape::ToolCallback => reply is Some && replies_for_tool(
                    reply->0,
                    value,
                    text,
                    flag == Some(true),
                ),
                LuaReplyShape::ResourceCallback => reply is Some && replies_for_resource(
                    reply->0,
                    value,
                    text,
                ),
            }
        }),
{
    match shape {
        LuaReplyShape::List(list) => {
            if given is Ok {
                assert(only_members(reply->0.result->0@, set![list_member(list)]));
            }
        },
        LuaReplyShape::Prompt => {
            if error_message(err) is Some {
                lemma_error_object(-32000, error_message(err)->0);
            }
        },
        LuaReplyShape::ToolCallback => lemma_tool_reply(
            reply->0,
            given_view(given),
            error_message(err),
            flag == Some(true),
        ),
        LuaReplyShape::ResourceCallback => lemma_resource_reply(
            reply->0,
            given_view(given),
            error_message(err),
        ),
    }
}

/// A returned list is replied under its own name, and a returned prompt as it
/// is; what is not JSON is not replied.
pub proof fn returned_values_are_replied_as_they_are(
    list: LuaList,
    value: Option<Json>,
    err: LuaErrorValue,
    message: Option<String>,
    listed: Option<McpHttpReply>,
    prompt: Option<McpHttpReply>,
)
    requires
        call_ensures(err_string, (err,), message),
        call_ensures(list_reply, (list, value), listed),
        call_ensures(prompt_reply, (value, err), prompt),
    ensures
        value is None ==> listed is None,
        value matches Some(value) ==> listed is Some && match list {
            LuaList::Tools => replies_member(listed->0, "tools"@, value@),
            LuaList::Prompts => replies_member(listed->0, "prompts"@, value@),
            LuaList::ResourceTemplates => replies_member(
                listed->0,
                "resourceTemplates"@,
                value@,
            ),
        },
        message matches Some(message) ==> prompt is Some && replies_error(
            prompt->0,
            -32000,
            message@,
        ),
        message is None && value is None ==> prompt is None,
        message is None && value is Some ==> prompt is Some && prompt->0.error is None && (
        prompt->0.result matches Some(result) && result@ == value->0@),
{
    if value is Some {
        assert(only_members(listed->0.result->0@, set![list_member(list)]));
    }
    if error_message(err) is Some {
        lemma_error_object(-32000, error_message(err)->0);
    }
}

/// A call that failed is replied for a prompt alone, with how it failed.
pub proof fn failed_calls_are_replied_for_prompts(
    shape: LuaReplyShape,
    cause: String,
    reply: Option<McpHttpReply>,
)
    requires
        call_ensures(lua_reply, (shape, LuaAnswer::Failed(cause)), reply),
    ensures
        shape is Prompt ==> reply is Some && replies_error(reply->0, -32000, cause@),
        !(shape is Prompt) ==> reply is None,
{
    lemma_error_object(-32000, cause@);
}

/// What a run comes to: the reply of its answer, or the reason why there is
/// none, in the words for what failed.
pub proof fn a_run_comes_to_a_reply_or_a_reason(
    function: Seq<char>,
    shape: LuaReplyShape,
    run: LuaRun,
)
    ensures
        ({
            let r = run_view(function, shape, run);
            match run {
                LuaRun::Waiting => r is Waiting,
                LuaRun::NotEncoded(cause) => r == LuaDispatchView::Refused(
                    if shape is Prompt {
                        "encode prompt arguments: "@ + cause@
                    } else {
                        "encode tool arguments: "@ + cause@
                    },
                ),
                LuaRun::NoFunction(cause) => r == LuaDispatchView::Refused(
                    "mcp."@ + function + ": "@ + cause@,
                ),
                LuaRun::NoCallback(cause) => r == LuaDispatchView::Refused(
                    if shape is ResourceCallback {
                        "create resources/read callback: "@ + cause@
                    } else {
                        "create tools/call callback: "@ + cause@
                    },
                ),
                LuaRun::Answered(answer) => match lua_reply_view(shape, answer) {
                    Some(reply) => r == LuaDispatchView::Reply(reply),
                    None => {
                        &&& answer matches LuaAnswer::Failed(cause) ==> r
                            == LuaDispatchView::Refused("mcp."@ + function + ": "@ + cause@)
                        &&& answer matches LuaAnswer::Gave(Err(cause), _, _) ==> r
                            == LuaDispatchView::Refused("convert Lua MCP value: "@ + cause@)
                    },
                },
            }
        }),
        forall|cause: Seq<char>| #[trigger]
            context_failure(cause) == "encode caller context: "@ + cause,
{
}

/// What a dispatch is: its own reply, its own reason, or a wait.
pub proof fn a_dispatch_is_its_reply_or_reason(reply: McpHttpReply, reason: String)
    ensures
        LuaDispatch::Reply(reply)@ == LuaDispatchView::Reply(reply@),
        LuaDispatch::Refused(reason)@ == LuaDispatchView::Refused(reason@),
        LuaDispatch::Waiting@ is Waiting,
{
}

/// The caller that Lua options name has their session and their hub, and only a
/// hub that is left out is the empty text. Its context names both.
pub proof fn options_name_session_and_hub(
    session_uuid: Option<String>,
    hub_id: Option<String>,
    extras: Vec<(String, String)>,
    r: Result<McpCaller, String>,
)
    requires
        call_ensures(caller_from_options, (session_uuid, hub_id, extras), r),
    ensures
        session_uuid is None ==> (r matches Err(message) && message@
            == "hub.issue_mcp_caller: session_uuid required"@),
        session_uuid matches Some(session) ==> (r matches Ok(caller) && {
            &&& caller.session_uuid@ == session@
            &&& hub_id matches Some(hub) ==> caller.hub_id@ == hub@
            &&& hub_id is None ==> caller.hub_id@.len() == 0
            &&& caller.context@.contains_pair("session_uuid"@, session@)
            &&& caller.context@.contains_pair("hub_id"@, caller.hub_id@)
        }),
{
    reveal_strlit("session_uuid");
    reveal_strlit("hub_id");
    assert("session_uuid"@.len() != "hub_id"@.len());
    if let Ok(caller) = r {
        lemma_extras_keep_identity(
            CallerView::of(caller@.session_uuid, caller@.hub_id).context,
            extras@,
        );
        lemma_extras_keep_names(
            CallerView::of(caller@.session_uuid, caller@.hub_id).context,
            extras@,
        );
    }
}

proof fn lemma_extras_keep_names(
    context: Map<Seq<char>, Seq<char>>,
    extras: Seq<(String, String)>,
)
    ensures
        context.contains_key("session_uuid"@) ==> with_extras(context, extras).contains_key(
            "session_uuid"@,
        ),
        context.contains_key("hub_id"@) ==> with_extras(context, extras).contains_key("hub_id"@),
    decreases extras.len(),
{
    if extras.len() > 0 {
        lemma_extras_keep_names(context, extras.drop_last());
    }
}

/// Of the further context that Lua options give, the last entry of each name
/// counts, but for the names of the identity; a name that none of them has is
/// not in the context.
pub proof fn options_give_further_context(
    session_uuid: Option<String>,
    hub_id: Option<String>,
    extras: Vec<(String, String)>,
    caller: McpCaller,
    name: Seq<char>,
)
    requires
        call_ensures(caller_from_options, (session_uuid, hub_id, extras), Ok(caller)),
        name != "session_uuid"@,
        name != "hub_id"@,
    ensures
        forall|i: int|
            0 <= i < extras@.len() && #[trigger] extras@[i].0@ == name && (forall|j: int|
                i < j < extras@.len() ==> #[trigger] extras@[j].0@ != name)
                ==> caller.context@.contains_pair(name, extras@[i].1@),
        (forall|j: int| 0 <= j < extras@.len() ==> #[trigger] extras@[j].0@ != name)
            ==> !caller.context@.contains_key(name),
{
    let base = CallerView::of(caller@.session_uuid, caller@.hub_id).context;
    assert forall|i: int|
        0 <= i < extras@.len() && #[trigger] extras@[i].0@ == name && (forall|j: int|
            i < j < extras@.len() ==> #[trigger] extras@[j].0@
                != name) implies caller.context@.contains_pair(name, extras@[i].1@) by {
        lemma_last_extra(base, extras@, i, name);
    }
    if forall|j: int| 0 <= j < extras@.len() ==> #[trigger] extras@[j].0@ != name {
        lemma_no_extra(base, extras@, name);
    }
}

proof fn lemma_last_extra(
    context: Map<Seq<char>, Seq<char>>,
    extras: Seq<(String, String)>,
    i: int,
    name: Seq<char>,
)
    requires
        0 <= i < extras.len(),
        extras[i].0@ == name,
        forall|j: int| i < j < extras.len() ==> #[trigger] extras[j].0@ != name,
        name != "session_uuid"@,
        name != "hub_id"@,
    ensures
        with_extras(context, extras).contains_pair(name, extras[i].1@),
    decreases extras.len(),
{
    if i < extras.len() - 1 {
        assert(extras[extras.len() - 1].0@ != name);
        lemma_last_extra(context, extras.drop_last(), i, name);
    }
}

proof fn lemma_no_extra(
    context: Map<Seq<char>, Seq<char>>,
    extras: Seq<(String, String)>,
    name: Seq<char>,
)
    requires
        forall|j: int| 0 <= j < extras.len() ==> #[trigger] extras[j].0@ != name,
        !context.contains_key(name),
    ensures
        !with_extras(context, extras).contains_key(name),
    decreases extras.len(),
{
    if extras.len() > 0 {
        assert(extras[extras.len() - 1].0@ != name);
        lemma_no_extra(context, extras.drop_last(), name);
    }
}

/// The table for an issued credential has its URL and its token, and the names
/// of the two environment variables, and nothing else.
pub proof fn an_issued_table_has_four_fields(
    issued: &IssuedMcpCaller,
    r: StringTable,
    name: Seq<char>,
)
    requires
        call_ensures(issued_fields, (issued,), r),
    ensures
        r@.contains_pair("url"@, issued.url@),
        r@.contains_pair("token"@, issued.token@),
        r@.contains_pair("url_env"@, "BOTSTER_MCP_URL"@),
        r@.contains_pair("token_env"@, "BOTSTER_MCP_TOKEN"@),
        r@.contains_key(name) ==> name == "url"@ || name == "token"@ || name == "url_env"@ || name
            == "token_env"@,
{
    reveal_strlit("url");
    reveal_strlit("token");
    reveal_strlit("url_env");
    reveal_strlit("token_env");
    assert("url"@.len() == 3 && "token"@.len() == 5 && "url_env"@.len() == 7 && "token_env"@.len()
        == 9);
}

/// What Lua gets for options is the credential that the registry answers for
/// the caller they name, or what is wrong; options without a session change
/// nothing.
pub proof fn options_are_answered_as_the_registry_answers(
    callers: crate::registry::RegistryView,
    caller: CallerView,
    fresh: Seq<char>,
)
    ensures
        issue_for_options(callers, None, fresh) == (
            callers,
            Err::<Map<Seq<char>, Seq<char>>, Seq<char>>(
                "hub.issue_mcp_caller: session_uuid required"@,
            ),
        ),
        ({
            let (next, answer) = callers.issue(caller, fresh);
            let (state, given) = issue_for_options(callers, Some(caller), fresh);
            &&& state == next
            &&& match answer {
                Ok(issued) => {
                    &&& given is Ok
                    &&& given->Ok_0.contains_pair("url"@, issued.url)
                    &&& given->Ok_0.contains_pair("token"@, issued.token)
                    &&& given->Ok_0.contains_pair("url_env"@, "BOTSTER_MCP_URL"@)
                    &&& given->Ok_0.contains_pair("token_env"@, "BOTSTER_MCP_TOKEN"@)
                    &&& forall|name: Seq<char>| #[trigger]
                        given->Ok_0.contains_key(name) ==> name == "url"@ || name == "token"@
                            || name == "url_env"@ || name == "token_env"@
                },
                Err(_) => given == Err::<Map<Seq<char>, Seq<char>>, Seq<char>>(
                    "shared MCP HTTP listener is not running"@,
                ),
            }
        }),
{
    reveal_strlit("url");
    reveal_strlit("token");
    reveal_strlit("url_env");
    reveal_strlit("token_env");
    assert("url"@.len() == 3 && "token"@.len() == 5 && "url_env"@.len() == 7 && "token_env"@.len()
        == 9);
}

/// A callback is waited for exactly where the function was given one.
pub proof fn callbacks_are_waited_for_where_they_are_given(
    caller: &McpCaller,
    method: &str,
    params: &Json,
    call: LuaCall,
    waits: bool,
)
    requires
        call_ensures(lua_step, (caller, method, params), LuaStep::Call(call)),
        call_ensures(waits_for_callback, (call.shape,), waits),
    ensures
        waits <==> exists|i: int| 0 <= i < call.args@.len() && #[trigger] call.args@[i] is Callback,
{
    lemma_methods();
    assert(call@.args.len() == call.args@.len());
    assert forall|i: int| 0 <= i < call.args@.len() implies call@.args[i] == #[trigger] call.args@[i]@ by {}
    if waits {
        let last = call.args@.len() - 1;
        assert(call@.args[last] is Callback);
        assert(call.args@[last] is Callback);
    } else if exists|i: int| 0 <= i < call.args@.len() && #[trigger] call.args@[i] is Callback {
        let i = choose|i: int| 0 <= i < call.args@.len() && #[trigger] call.args@[i] is Callback;
        assert(call@.args[i] is Callback);
    }
}

/// What Lua gets is the table or the message itself.
pub proof fn lua_gets_the_table_or_the_message(fields: StringTable, message: String)
    ensures
        fields_view(Ok(fields)) == Ok::<Map<Seq<char>, Seq<char>>, Seq<char>>(fields@),
        fields_view(Err(message)) == Err::<Map<Seq<char>, Seq<char>>, Seq<char>>(message@),
{
}

/// A dispatch through Lua is refused where the caller's context cannot be
/// encoded. Else it is the reply or the refusal that the method has at once, or
/// comes of the one call that the method asks for, made with that context: a
/// wait, or the reply to the answer of Lua where it makes one.
pub proof fn a_dispatch_comes_of_the_call_of_its_method<
    C,
    E: FnOnce(Json) -> Result<C, String>,
    F: FnOnce(LuaCall, C) -> LuaRun,
>(
    caller: &McpCaller,
    method: &str,
    params: &Json,
    encode: E,
    run: F,
    context: Json,
    step: LuaStep,
    r: LuaDispatch,
)
    requires
        call_ensures(dispatch_lua_mcp::<C, E, F>, (caller, method, params, encode, run), r),
        call_ensures(caller_context, (caller,), context),
        call_ensures(lua_step, (caller, method, params), step),
    ensures
        exists|given: Json, encoded: Result<C, String>|
            {
                &&& given@ == context@
                &&& #[trigger] call_ensures(encode, (given,), encoded)
                &&& match encoded {
                    Err(cause) => r matches LuaDispatch::Refused(reason) && reason@
                        == "encode caller context: "@ + cause@,
                    Ok(value) => match step {
                        LuaStep::Reply(reply) => r matches LuaDispatch::Reply(given) && given@
                            == reply@,
                        LuaStep::Refuse(reason) => r matches LuaDispatch::Refused(given) && given@
                            == reason@,
                        LuaStep::Call(call) => exists|made: LuaCall, outcome: LuaRun|
                            {
                                &&& made@ == call@
                                &&& #[trigger] call_ensures(run, (made, value), outcome)
                                &&& outcome is Waiting ==> r is Waiting
                                &&& outcome matches LuaRun::Answered(answer) ==> (
                                lua_reply_view(call.shape, answer) matches Some(reply) ==> (
                                r matches LuaDispatch::Reply(given) && given@ == reply))
                                &&& r@ == run_view(call.function@, call.shape, outcome)
                            },
                    },
                }
            },
{
    let encoded = choose|encoded: Result<C, String>|
        {
            &&& #[trigger] encodes_context(caller@, encode, encoded)
            &&& match encoded {
                Err(cause) => r@ == LuaDispatchView::Refused(context_failure(cause@)),
                Ok(context) => match lua_step_view(caller@, method@, params@) {
                    LuaStepView::Reply(reply) => r@ == LuaDispatchView::Reply(reply),
                    LuaStepView::Refuse(message) => r@ == LuaDispatchView::Refused(message),
                    LuaStepView::Call(call) => exists|made: LuaCall, outcome: LuaRun|
                        {
                            &&& made@ == call
                            &&& #[trigger] call_ensures(run, (made, context), outcome)
                            &&& r@ == run_view(call.function, call.shape, outcome)
                        },
                },
            }
        };
    let given = choose|given: Json|
        given@ == context_view(caller@) && #[trigger] call_ensures(encode, (given,), encoded);
    assert(call_ensures(encode, (given,), encoded));
}

/// The reply in a slot is taken once: the first to take it gets it, and the
/// next gets nothing.
pub proof fn a_reply_is_taken_once<T>(
    reply: T,
    slot: ReplySlot<T>,
    first: &mut ReplySlot<T>,
    second: &mut ReplySlot<T>,
    given: Option<T>,
    again: Option<T>,
)
    requires
        call_ensures(ReplySlot::<T>::new, (reply,), slot),
        *old(first) == slot,
        call_ensures(ReplySlot::<T>::take, (first,), given),
        *old(second) == *final(first),
        call_ensures(ReplySlot::<T>::take, (second,), again),
    ensures
        given == Some(reply),
        again is None,
{
}

/// A list that Lua returns stands in the result under the name of the list, a
/// prompt is the result itself, and the contents of a resource stand under
/// their name: each the very value that Lua gave.
pub proof fn the_value_that_lua_gave_is_in_the_result(
    v: Json,
    err: LuaErrorValue,
    flag: Option<bool>,
    tools: Option<McpHttpReply>,
    prompts: Option<McpHttpReply>,
    templates: Option<McpHttpReply>,
    prompt: Option<McpHttpReply>,
    resource: Option<McpHttpReply>,
)
    requires
        call_ensures(err_string, (err,), None),
        call_ensures(
            lua_reply,
            (LuaReplyShape::List(LuaList::Tools), LuaAnswer::Gave(Ok(v), err, flag)),
            tools,
        ),
        call_ensures(
            lua_reply,
            (LuaReplyShape::List(LuaList::Prompts), LuaAnswer::Gave(Ok(v), err, flag)),
            prompts,
        ),
        call_ensures(
            lua_reply,
            (LuaReplyShape::List(LuaList::ResourceTemplates), LuaAnswer::Gave(Ok(v), err, flag)),
            templates,
        ),
        call_ensures(
            lua_reply,
            (LuaReplyShape::Prompt, LuaAnswer::Gave(Ok(v), err, flag)),
            prompt,
        ),
        call_ensures(
            lua_reply,
            (LuaReplyShape::ResourceCallback, LuaAnswer::Gave(Ok(v), err, flag)),
            resource,
        ),
    ensures
        tools matches Some(reply) && reply.error is None && (reply.result matches Some(result)
            && member(result@, "tools"@) == Some(v@)),
        prompts matches Some(reply) && reply.error is None && (reply.result matches Some(result)
            && member(result@, "prompts"@) == Some(v@)),
        templates matches Some(reply) && reply.error is None && (reply.result matches Some(result)
            && member(result@, "resourceTemplates"@) == Some(v@)),
        prompt matches Some(reply) && reply.error is None && (reply.result matches Some(result)
            && result@ == v@),
        resource matches Some(reply) && reply.error is None && (reply.result matches Some(result)
            && member(result@, "contents"@) == Some(v@)),
{
}

/// Where a callback gives a message, the reply is that error, under the code of
/// a server error for a tool or a prompt and of a resource error for a resource,
/// whatever else it gave; where it gives what is not JSON, tools and resources
/// reply the empty list.
pub proof fn messages_and_missing_values_are_replied(
    given: Result<Json, String>,
    cause: String,
    err: LuaErrorValue,
    quiet: LuaErrorValue,
    flag: Option<bool>,
    message: String,
    tool: Option<McpHttpReply>,
    prompt: Option<McpHttpReply>,
    resource: Option<McpHttpReply>,
    empty_tool: Option<McpHttpReply>,
    empty_resource: Option<McpHttpReply>,
)
    requires
        call_ensures(err_string, (err,), Some(message)),
        call_ensures(err_string, (quiet,), None),
        call_ensures(
            lua_reply,
            (LuaReplyShape::ToolCallback, LuaAnswer::Gave(given, err, flag)),
            tool,
        ),
        call_ensures(
            lua_reply,
            (LuaReplyShape::Prompt, LuaAnswer::Gave(given, err, flag)),
            prompt,
        ),
        call_ensures(
            lua_reply,
            (LuaReplyShape::ResourceCallback, LuaAnswer::Gave(given, err, flag)),
            resource,
        ),
        call_ensures(
            lua_reply,
            (LuaReplyShape::ToolCallback, LuaAnswer::Gave(Err(cause), quiet, flag)),
            empty_tool,
        ),
        call_ensures(
            lua_reply,
            (LuaReplyShape::ResourceCallback, LuaAnswer::Gave(Err(cause), quiet, flag)),
            empty_resource,
        ),
    ensures
        tool matches Some(reply) && reply.result is None && (reply.error matches Some(error)
            && member(error@, "code"@) == Some(JsonView::Numeral(integer_number(-32000))) && member(
            error@,
            "message"@,
        ) == Some(JsonView::Text(message@))),
        prompt matches Some(reply) && reply.result is None && (reply.error matches Some(error)
            && member(error@, "code"@) == Some(JsonView::Numeral(integer_number(-32000))) && member(
            error@,
            "message"@,
        ) == Some(JsonView::Text(message@))),
        resource matches Some(reply) && reply.result is None && (reply.error matches Some(error)
            && member(error@, "code"@) == Some(JsonView::Numeral(integer_number(-32002))) && member(
            error@,
            "message"@,
        ) == Some(JsonView::Text(message@))),
        empty_tool matches Some(reply) && reply.error is None && (reply.result matches Some(result)
            && member(result@, "content"@) == Some(JsonView::Array(Seq::empty())) && member(
            result@,
            "isError"@,
        ) == Some(JsonView::Bool(flag == Some(true)))),
        empty_resource matches Some(reply) && reply.error is None && (reply.result matches Some(
            result,
        ) && member(result@, "contents"@) == Some(JsonView::Array(Seq::empty()))),
{
    lemma_error_object(-32000, message@);
    lemma_error_object(-32002, message@);
    lemma_tool_reply(empty_tool->0, None, None, flag == Some(true));
}

} // verus!
