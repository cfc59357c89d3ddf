//! What the shared listener answers.
//!
//! A request is routed first: path, credential and HTTP method. A POST then
//! takes its body apart, and either has its answer at once or asks for one
//! dispatch, whose outcome makes the answer.

use crate::caller::{CallerView, McpCaller};
use crate::fanout::{notification_event, sse_notification, McpListKind};
use crate::headers::{
    a_bearer_header_gives_back_its_token, accepts_event_stream, accepts_events, bearer_token,
    bytes_view, extract_bearer, issued_tokens_are_presentable, text_bytes,
};
use crate::json::{json_parse, member, only_members, text_member, Json, JsonView};
use crate::registry::{an_issued_token_ends_with_its_session, McpCallerRegistry, RegistryView};
use crate::response::{
    answers_error, answers_result, bare_response, empty_accepted, empty_response, error_object,
    error_view, http_error, http_error_view, jsonrpc_error, jsonrpc_result, lemma_error,
    lemma_error_object, lemma_refusal, lemma_result, names_error, refuses, result_view,
    HttpResponse, ResponseView,
};
use crate::text::{one_line, same_text};
use crate::token::token_text;
use vstd::prelude::*;
use vstd::string::StringExecFns;

verus! {

/// MCP HTTP path on the shared listener.
pub const MCP_HTTP_PATH: &'static str = "/mcp";

/// Largest accepted JSON-RPC body.
pub const BODY_LIMIT: usize = 1048576;

/// The head of a request: its method and path, and the bytes of the first
/// Authorization and Accept headers. It has no `Debug`, since it may hold a token.
pub struct RequestHead {
    pub method: String,
    pub path: String,
    pub authorization: Option<Vec<u8>>,
    pub accept: Option<Vec<u8>>,
}

/// What the head of a request is.
pub struct HeadView {
    pub method: Seq<char>,
    pub path: Seq<char>,
    pub authorization: Option<Seq<u8>>,
    pub accept: Option<Seq<u8>>,
}

/// The bytes in an option.
pub open spec fn vec_view(v: Option<Vec<u8>>) -> Option<Seq<u8>> {
    match v {
        Some(v) => Some(v@),
        None => None,
    }
}

impl View for RequestHead {
    type V = HeadView;

    open spec fn view(&self) -> HeadView {
        HeadView {
            method: self.method@,
            path: self.path@,
            authorization: vec_view(self.authorization),
            accept: vec_view(self.accept),
        }
    }
}

/// Where a request goes.
#[derive(Debug)]
pub enum Route {
    /// It is answered at once.
    Respond(HttpResponse),
    /// Its body is read and handled for this caller.
    Post(McpCaller),
    /// It opens an event stream.
    Events,
}

/// What a route is.
pub enum RouteView {
    Respond(ResponseView),
    Post(CallerView),
    Events,
}

impl View for Route {
    type V = RouteView;

    open spec fn view(&self) -> RouteView {
        match self {
            Route::Respond(response) => RouteView::Respond(response@),
            Route::Post(caller) => RouteView::Post(caller@),
            Route::Events => RouteView::Events,
        }
    }
}

/// Where an authorized request goes, by its HTTP method.
pub open spec fn authorized_route(caller: CallerView, head: HeadView) -> RouteView {
    if head.method == "POST"@ {
        RouteView::Post(caller)
    } else if head.method == "GET"@ {
        if accepts_events(head.accept) {
            RouteView::Events
        } else {
            RouteView::Respond(http_error_view(406, "GET /mcp requires text/event-stream"@))
        }
    } else if head.method == "DELETE"@ {
        RouteView::Respond(bare_response(204))
    } else {
        RouteView::Respond(http_error_view(405, "method not allowed"@))
    }
}

/// Where a request goes: only the MCP path is served, and only to a caller
/// whose token is live.
pub open spec fn route_view(callers: RegistryView, head: HeadView) -> RouteView {
    if head.path != MCP_HTTP_PATH@ {
        RouteView::Respond(http_error_view(404, "not found"@))
    } else {
        match bearer_token(head.authorization) {
            None => RouteView::Respond(
                http_error_view(401, "missing or invalid caller credential"@),
            ),
            Some(token) => match callers.authorize(token) {
                None => RouteView::Respond(
                    http_error_view(401, "stale or unknown caller credential"@),
                ),
                Some(caller) => authorized_route(caller, head),
            },
        }
    }
}

fn slice_of(v: &Option<Vec<u8>>) -> (r: Option<&[u8]>)
    ensures
        bytes_view(r) == vec_view(*v),
{
    match v {
        Some(v) => Some(v.as_slice()),
        None => None,
    }
}

/// Decides where a request goes.
pub fn route(callers: &McpCallerRegistry, head: &RequestHead) -> (r: Route)
    ensures
        r@ == route_view(callers@, head@),
        r matches Route::Respond(response) ==> one_line(response@.body),
{
    if !same_text(head.path.as_str(), MCP_HTTP_PATH) {
        return Route::Respond(http_error(404, "not found"));
    }
    let token = match extract_bearer(slice_of(&head.authorization)) {
        Some(token) => token,
        None => {
            return Route::Respond(http_error(401, "missing or invalid caller credential"));
        },
    };
    let caller = match callers.authorize(token.as_str()) {
        Some(caller) => caller,
        None => {
            return Route::Respond(http_error(401, "stale or unknown caller credential"));
        },
    };
    proof {
        reveal_strlit("POST");
        reveal_strlit("GET");
        reveal_strlit("DELETE");
    }
    let method = head.method.as_str();
    if same_text(method, "POST") {
        Route::Post(caller)
    } else if same_text(method, "GET") {
        match handle_sse_get(slice_of(&head.accept)) {
            Some(refusal) => Route::Respond(refusal),
            None => Route::Events,
        }
    } else if same_text(method, "DELETE") {
        Route::Respond(empty_response(204))
    } else {
        Route::Respond(http_error(405, "method not allowed"))
    }
}

/// The refusal of a GET that does not ask for an event stream.
pub fn handle_sse_get(accept: Option<&[u8]>) -> (r: Option<HttpResponse>)
    ensures
        match r {
            Some(refusal) => {
                &&& !accepts_events(bytes_view(accept))
                &&& refusal@ == http_error_view(406, "GET /mcp requires text/event-stream"@)
                &&& one_line(refusal@.body)
            },
            None => accepts_events(bytes_view(accept)),
        },
{
    if accepts_event_stream(accept) {
        None
    } else {
        Some(http_error(406, "GET /mcp requires text/event-stream"))
    }
}

/// The text of an event stream: the endpoint, then each notification.
pub open spec fn event_stream(kinds: Seq<McpListKind>) -> Seq<char>
    decreases kinds.len(),
{
    if kinds.len() == 0 {
        "event: endpoint\ndata: /mcp\n\n"@
    } else {
        event_stream(kinds.drop_last()) + notification_event(kinds.last())
    }
}

/// The answer with an event stream.
pub open spec fn event_stream_view(kinds: Seq<McpListKind>) -> ResponseView {
    ResponseView {
        status: 200,
        headers: seq![
            ("content-type"@, "text/event-stream"@),
            ("cache-control"@, "no-cache"@),
        ],
        body: event_stream(kinds),
    }
}

/// The answer with an event stream that holds the pending notifications.
pub fn sse_response(pending: &Vec<McpListKind>) -> (r: HttpResponse)
    ensures
        r@ == event_stream_view(pending@),
{
    let mut body = "event: endpoint\ndata: /mcp\n\n".to_owned();
    let mut i: usize = 0;
    while i < pending.len()
        invariant
            i <= pending@.len(),
            body@ == event_stream(pending@.take(i as int)),
        decreases pending.len() - i,
    {
        body.append(sse_notification(pending[i]).as_str());
        i += 1;
        assert(pending@.take(i as int).drop_last() =~= pending@.take(i - 1));
    }
    assert(pending@.take(pending@.len() as int) =~= pending@);
    let mut headers: Vec<(String, String)> = Vec::new();
    headers.push(("content-type".to_owned(), "text/event-stream".to_owned()));
    headers.push(("cache-control".to_owned(), "no-cache".to_owned()));
    let r = HttpResponse { status: 200, headers, body };
    assert(r@.headers =~= event_stream_view(pending@).headers);
    r
}

/// What a list that tells of its changes says of itself.
pub open spec fn list_changed() -> JsonView {
    JsonView::Object(map!["listChanged"@ => JsonView::Bool(true)])
}

/// The result of `initialize`. It depends on the server alone.
pub open spec fn initialize_view(version: Seq<char>) -> JsonView {
    JsonView::Object(
        map![
            "protocolVersion"@ => JsonView::Text("2025-03-26"@),
            "capabilities"@ => JsonView::Object(
                map![
                    "tools"@ => list_changed(),
                    "prompts"@ => list_changed(),
                    "resources"@ => list_changed(),
                ],
            ),
            "serverInfo"@ => JsonView::Object(
                map![
                    "name"@ => JsonView::Text("botster-hub"@),
                    "version"@ => JsonView::Text(version),
                ],
            ),
        ],
    )
}

fn list_changed_capability() -> (r: Json)
    ensures
        r@ == list_changed(),
{
    Json::empty_object().with("listChanged", Json::Bool(true))
}

/// The result of `initialize`, for a server of this version.
pub fn initialize_result(version: &str) -> (r: Json)
    ensures
        r@ == initialize_view(version@),
{
    let capabilities = Json::empty_object().with("tools", list_changed_capability()).with(
        "prompts",
        list_changed_capability(),
    ).with("resources", list_changed_capability());
    let server = Json::empty_object().with("name", Json::text("botster-hub")).with(
        "version",
        Json::text(version),
    );
    Json::empty_object().with("protocolVersion", Json::text("2025-03-26")).with(
        "capabilities",
        capabilities,
    ).with("serverInfo", server)
}

/// One method call that waits for its dispatch.
#[derive(Debug)]
pub struct PendingCall {
    /// The caller that asked, and for whom alone the method runs.
    pub caller: McpCaller,
    /// The id that the answer carries.
    pub id: Json,
    pub method: String,
    pub params: Json,
}

/// What a waiting call is.
pub struct CallView {
    pub caller: CallerView,
    pub id: JsonView,
    pub method: Seq<char>,
    pub params: JsonView,
}

impl View for PendingCall {
    type V = CallView;

    open spec fn view(&self) -> CallView {
        CallView {
            caller: self.caller@,
            id: self.id@,
            method: self.method@,
            params: self.params@,
        }
    }
}

/// What a POST comes to once its body is read.
#[derive(Debug)]
pub enum PostStep {
    /// It is answered at once.
    Respond(HttpResponse),
    /// One method is dispatched first.
    Dispatch(PendingCall),
}

/// What the step of a POST is.
pub enum StepView {
    Respond(ResponseView),
    Dispatch(CallView),
}

impl View for PostStep {
    type V = StepView;

    open spec fn view(&self) -> StepView {
        match self {
            PostStep::Respond(response) => StepView::Respond(response@),
            PostStep::Dispatch(call) => StepView::Dispatch(call@),
        }
    }
}

/// The method that a payload names; none is the empty text.
pub open spec fn payload_method(payload: JsonView) -> Seq<char> {
    match text_member(payload, "method"@) {
        Some(method) => method,
        None => Seq::empty(),
    }
}

/// The parameters of a payload; none is the empty object.
pub open spec fn payload_params(payload: JsonView) -> JsonView {
    match member(payload, "params"@) {
        Some(params) => params,
        None => JsonView::Object(Map::empty()),
    }
}

/// What a JSON-RPC payload of a caller comes to: a wrong version and a missing
/// method are errors, a payload without id is a notification and only
/// accepted, `initialize` and `ping` have their answer, and every other method
/// is dispatched for that caller.
pub open spec fn payload_step(
    caller: CallerView,
    payload: JsonView,
    version: Seq<char>,
) -> StepView {
    let id = member(payload, "id"@);
    let method = payload_method(payload);
    if text_member(payload, "jsonrpc"@) != Some("2.0"@) {
        StepView::Respond(error_view(None, error_object(-32600, "invalid JSON-RPC version"@)))
    } else if method.len() == 0 {
        StepView::Respond(error_view(id, error_object(-32600, "missing method"@)))
    } else if id is None {
        StepView::Respond(bare_response(202))
    } else if method == "initialize"@ {
        StepView::Respond(result_view(id, initialize_view(version)))
    } else if method == "ping"@ {
        StepView::Respond(result_view(id, JsonView::Object(Map::empty())))
    } else {
        StepView::Dispatch(
            CallView { caller, id: id->0, method, params: payload_params(payload) },
        )
    }
}

/// What the body of a POST comes to. `None` is a body that could not be read
/// within the limit.
pub open spec fn post_step(
    caller: CallerView,
    body: Option<Seq<u8>>,
    version: Seq<char>,
) -> StepView {
    if body is None || body->0.len() > BODY_LIMIT {
        StepView::Respond(http_error_view(413, "request body too large"@))
    } else {
        match json_parse(body->0) {
            None => StepView::Respond(http_error_view(400, "invalid JSON-RPC body"@)),
            Some(payload) => payload_step(caller, payload, version),
        }
    }
}

/// Handles the JSON-RPC payload of a caller.
pub fn handle_payload(caller: McpCaller, payload: &Json, version: &str) -> (r: PostStep)
    ensures
        r@ == payload_step(caller@, payload@, version@),
        r matches PostStep::Respond(response) ==> one_line(response@.body),
{
    let current = match payload.get_str("jsonrpc") {
        Some(jsonrpc) => same_text(jsonrpc, "2.0"),
        None => false,
    };
    if !current {
        return PostStep::Respond(jsonrpc_error(None, -32600, "invalid JSON-RPC version"));
    }
    let id = match payload.get("id") {
        Some(id) => Some(id.clone()),
        None => None,
    };
    let method = match payload.get_str("method") {
        Some(method) => method.to_owned(),
        None => String::new(),
    };
    if method.as_str().is_empty() {
        return PostStep::Respond(jsonrpc_error(id, -32600, "missing method"));
    }
    let id = match id {
        Some(id) => id,
        None => {
            return PostStep::Respond(empty_accepted());
        },
    };
    if same_text(method.as_str(), "initialize") {
        return PostStep::Respond(jsonrpc_result(Some(id), initialize_result(version)));
    }
    if same_text(method.as_str(), "ping") {
        return PostStep::Respond(jsonrpc_result(Some(id), Json::empty_object()));
    }
    let params = match payload.get("params") {
        Some(params) => params.clone(),
        None => Json::empty_object(),
    };
    PostStep::Dispatch(PendingCall { caller, id, method, params })
}

/// Handles the body of a POST of a caller. `None` is a body that could not be
/// read within the limit.
pub fn handle_post(caller: McpCaller, body: Option<&[u8]>, version: &str) -> (r: PostStep)
    ensures
        r@ == post_step(caller@, bytes_view(body), version@),
        r matches PostStep::Respond(response) ==> one_line(response@.body),
{
    let body = match body {
        Some(body) => body,
        None => {
            return PostStep::Respond(http_error(413, "request body too large"));
        },
    };
    if body.len() > BODY_LIMIT {
        return PostStep::Respond(http_error(413, "request body too large"));
    }
    match Json::parse(body) {
        Some(payload) => handle_payload(caller, &payload, version),
        None => PostStep::Respond(http_error(400, "invalid JSON-RPC body")),
    }
}

/// A request reaches a caller's methods or the event stream only with a live
/// token, and it runs as the caller that this token was issued to.
pub proof fn only_live_tokens_are_served(callers: RegistryView, head: HeadView)
    ensures
        !(route_view(callers, head) is Respond) ==> {
            &&& head.path == MCP_HTTP_PATH@
            &&& bearer_token(head.authorization) is Some
            &&& callers.authorize(bearer_token(head.authorization)->0) is Some
        },
        route_view(callers, head) matches RouteView::Post(caller) ==> callers.authorize(
            bearer_token(head.authorization)->0,
        ) == Some(caller),
{
}

/// A request without a live token is answered 401, whatever its method.
pub proof fn other_tokens_are_unauthorized(callers: RegistryView, head: HeadView)
    requires
        head.path == MCP_HTTP_PATH@,
        bearer_token(head.authorization) matches Some(token) ==> callers.authorize(token) is None,
    ensures
        route_view(callers, head) matches RouteView::Respond(response) && response.status == 401,
{
}

/// A caller that presents its issued token over POST is served as a caller of
/// its own session; once the session is revoked, or everything is, the same
/// request is answered 401.
pub proof fn an_issued_token_is_served_until_revoked(
    callers: RegistryView,
    caller: CallerView,
    secret: Seq<u8>,
    head: HeadView,
)
    requires
        callers.exclusive(),
        callers.url is Some,
        callers.live_token(caller.session_uuid) is None,
        head.path == MCP_HTTP_PATH@,
        head.method == "POST"@,
        head.authorization == Some(text_bytes("Bearer "@ + token_text(secret))),
    ensures
        ({
            let next = callers.issue(caller, token_text(secret)).0;
            &&& route_view(next, head) == RouteView::Post(caller)
            &&& route_view(next.revoke_session(caller.session_uuid), head) == RouteView::Respond(
                http_error_view(401, "stale or unknown caller credential"@),
            )
            &&& route_view(RegistryView::empty(), head) == RouteView::Respond(
                http_error_view(401, "stale or unknown caller credential"@),
            )
        }),
{
    issued_tokens_are_presentable(secret);
    a_bearer_header_gives_back_its_token(token_text(secret));
    an_issued_token_ends_with_its_session(callers, caller, token_text(secret));
}

/// What is answered without a dispatch says nothing of the caller: every other
/// caller would get the same answer.
pub proof fn answers_without_dispatch_do_not_depend_on_the_caller(
    one: CallerView,
    other: CallerView,
    body: Option<Seq<u8>>,
    version: Seq<char>,
)
    ensures
        post_step(one, body, version) is Respond ==> post_step(other, body, version) == post_step(
            one,
            body,
            version,
        ),
{
}

/// A dispatch runs for the caller of the request, under the id and the method
/// that the payload names; a payload without id or method is never dispatched.
pub proof fn a_dispatch_is_what_the_caller_asked_for(
    caller: CallerView,
    payload: JsonView,
    version: Seq<char>,
)
    ensures
        payload_step(caller, payload, version) matches StepView::Dispatch(call) ==> {
            &&& call.caller == caller
            &&& member(payload, "id"@) == Some(call.id)
            &&& text_member(payload, "method"@) == Some(call.method)
            &&& call.method.len() > 0
            &&& call.params == payload_params(payload)
        },
{
}

/// A body beyond the limit is refused unread.
pub proof fn large_bodies_are_refused(caller: CallerView, body: Seq<u8>, version: Seq<char>)
    requires
        body.len() > BODY_LIMIT,
    ensures
        post_step(caller, Some(body), version) == StepView::Respond(
            http_error_view(413, "request body too large"@),
        ),
{
}

/// A request is refused where its path, its credential or its method says so,
/// each with its own status and reason; a live token over POST is served as the
/// caller that it stands for, and over GET with an event stream where the
/// request asks for one.
pub proof fn a_request_goes_where_it_says(callers: &McpCallerRegistry, head: &RequestHead, r: Route)
    requires
        call_ensures(route, (callers, head), r),
    ensures
        ({
            let authorization = match head.authorization {
                Some(bytes) => Some(bytes@),
                None => None,
            };
            let accept = match head.accept {
                Some(bytes) => Some(bytes@),
                None => None,
            };
            if head.path@ != "/mcp"@ {
                r matches Route::Respond(response) && refuses(response, 404, "not found"@)
            } else if bearer_token(authorization) is None {
                r matches Route::Respond(response) && refuses(
                    response,
                    401,
                    "missing or invalid caller credential"@,
                )
            } else if callers@.authorize(bearer_token(authorization)->0) is None {
                r matches Route::Respond(response) && refuses(
                    response,
                    401,
                    "stale or unknown caller credential"@,
                )
            } else if head.method@ == "POST"@ {
                r matches Route::Post(caller) && callers@.authorize(
                    bearer_token(authorization)->0,
                ) == Some(caller@)
            } else if head.method@ == "GET"@ && accepts_events(accept) {
                r is Events
            } else if head.method@ == "GET"@ {
                r matches Route::Respond(response) && refuses(
                    response,
                    406,
                    "GET /mcp requires text/event-stream"@,
                )
            } else if head.method@ == "DELETE"@ {
                r matches Route::Respond(response) && response.status == 204
                    && response.headers@.len() == 0 && response.body@.len() == 0
            } else {
                r matches Route::Respond(response) && refuses(response, 405, "method not allowed"@)
            }
        }),
{
    reveal_strlit("POST");
    reveal_strlit("GET");
    reveal_strlit("DELETE");
    assert("POST"@.len() == 4 && "GET"@.len() == 3 && "DELETE"@.len() == 6);
    if let Route::Respond(response) = r {
        if head@.path != MCP_HTTP_PATH@ {
            lemma_refusal(response, 404, "not found"@);
        } else if bearer_token(head@.authorization) is None {
            lemma_refusal(response, 401, "missing or invalid caller credential"@);
        } else if callers@.authorize(bearer_token(head@.authorization)->0) is None {
            lemma_refusal(response, 401, "stale or unknown caller credential"@);
        } else if head@.method == "GET"@ {
            lemma_refusal(response, 406, "GET /mcp requires text/event-stream"@);
        } else if head@.method == "DELETE"@ {
            assert(response@.headers.len() == 0);
        } else {
            lemma_refusal(response, 405, "method not allowed"@);
        }
    }
}

/// A GET is refused exactly where its Accept header does not ask for an event
/// stream.
pub proof fn a_get_needs_to_ask_for_events(accept: Option<&[u8]>, r: Option<HttpResponse>)
    requires
        call_ensures(handle_sse_get, (accept,), r),
    ensures
        accept is None ==> r is Some,
        accept matches Some(bytes) ==> (r is None <==> accepts_events(Some(bytes@))),
        r matches Some(response) ==> refuses(
            response,
            406,
            "GET /mcp requires text/event-stream"@,
        ),
{
    if let Some(response) = r {
        lemma_refusal(response, 406, "GET /mcp requires text/event-stream"@);
    }
}

/// An event stream starts with the endpoint; each further notification adds its
/// event at the end and changes nothing before it.
pub proof fn an_event_stream_holds_every_notification(
    some: &Vec<McpListKind>,
    more: &Vec<McpListKind>,
    kind: McpListKind,
    first: HttpResponse,
    second: HttpResponse,
    event: String,
)
    requires
        more@ == some@.push(kind),
        call_ensures(sse_response, (some,), first),
        call_ensures(sse_response, (more,), second),
        call_ensures(sse_notification, (kind,), event),
    ensures
        some@.len() == 0 ==> first.body@ == "event: endpoint\ndata: /mcp\n\n"@,
        second.body@ == first.body@ + event@,
        first.status == 200,
        first.headers@.len() == 2,
        first.headers@[0].0@ == "content-type"@ && first.headers@[0].1@ == "text/event-stream"@,
        first.headers@[1].0@ == "cache-control"@ && first.headers@[1].1@ == "no-cache"@,
{
    assert(more@.drop_last() =~= some@);
    assert(first@.headers.len() == 2);
    assert(first@.headers[0] == (first.headers@[0].0@, first.headers@[0].1@));
    assert(first@.headers[1] == (first.headers@[1].0@, first.headers@[1].1@));
}

/// A list in the capabilities says that it tells of its changes, and no more.
pub open spec fn tells_of_changes(capabilities: JsonView, list: Seq<char>) -> bool {
    member(capabilities, list) matches Some(says) && only_members(says, set!["listChanged"@])
        && member(says, "listChanged"@) == Some(JsonView::Bool(true))
}

/// A result of `initialize` names the protocol, three lists that tell of their
/// changes, and the server with its version.
pub open spec fn introduces(result: JsonView, version: Seq<char>) -> bool {
    let capabilities = member(result, "capabilities"@)->0;
    let server = member(result, "serverInfo"@)->0;
    &&& only_members(result, set!["protocolVersion"@, "capabilities"@, "serverInfo"@])
    &&& member(result, "protocolVersion"@) == Some(JsonView::Text("2025-03-26"@))
    &&& member(result, "capabilities"@) is Some
    &&& only_members(capabilities, set!["tools"@, "prompts"@, "resources"@])
    &&& tells_of_changes(capabilities, "tools"@)
    &&& tells_of_changes(capabilities, "prompts"@)
    &&& tells_of_changes(capabilities, "resources"@)
    &&& member(result, "serverInfo"@) is Some
    &&& only_members(server, set!["name"@, "version"@])
    &&& member(server, "name"@) == Some(JsonView::Text("botster-hub"@))
    &&& member(server, "version"@) == Some(JsonView::Text(version))
}

proof fn lemma_introduces(version: Seq<char>)
    ensures
        introduces(initialize_view(version), version),
{
    reveal_strlit("protocolVersion");
    reveal_strlit("capabilities");
    reveal_strlit("serverInfo");
    reveal_strlit("tools");
    reveal_strlit("prompts");
    reveal_strlit("resources");
    reveal_strlit("name");
    reveal_strlit("version");
    reveal_strlit("listChanged");
    let result = initialize_view(version);
    assert("protocolVersion"@.len() == 15 && "capabilities"@.len() == 12 && "serverInfo"@.len()
        == 10);
    assert("tools"@.len() == 5 && "prompts"@.len() == 7 && "resources"@.len() == 9);
    assert("name"@.len() == 4 && "version"@.len() == 7);
    assert(only_members(result, set!["protocolVersion"@, "capabilities"@, "serverInfo"@]));
    assert(only_members(
        member(result, "capabilities"@)->0,
        set!["tools"@, "prompts"@, "resources"@],
    ));
    assert(only_members(member(result, "serverInfo"@)->0, set!["name"@, "version"@]));
    assert(only_members(list_changed(), set!["listChanged"@]));
}

/// The server introduces itself with its protocol, its lists and its version.
pub proof fn the_server_introduces_itself(version: &str, r: Json)
    requires
        call_ensures(initialize_result, (version,), r),
    ensures
        introduces(r@, version@),
{
    lemma_introduces(version@);
}

/// A request is handled as it asks. Without the version or a method it gets an
/// error, under its id where the version is right; without an id it is only
/// accepted; `initialize` and `ping` are answered; and every other method waits
/// for its dispatch with the caller, the id and the method of the request and
/// with its own parameters, or the empty object where it has none.
pub open spec fn handled_as_asked(
    r: PostStep,
    caller: McpCaller,
    payload: JsonView,
    version: Seq<char>,
) -> bool {
    let id = member(payload, "id"@);
    if member(payload, "jsonrpc"@) != Some(JsonView::Text("2.0"@)) {
        r matches PostStep::Respond(response) && exists|error: JsonView|
            #[trigger] names_error(error, -32600, "invalid JSON-RPC version"@) && answers_error(
                response,
                JsonView::Null,
                error,
            )
    } else if !(member(payload, "method"@) matches Some(JsonView::Text(method)) && method.len()
        > 0) {
        r matches PostStep::Respond(response) && exists|error: JsonView|
            #[trigger] names_error(error, -32600, "missing method"@) && answers_error(
                response,
                if id is Some {
                    id->0
                } else {
                    JsonView::Null
                },
                error,
            )
    } else if id is None {
        r matches PostStep::Respond(response) && response.status == 202
            && response.headers@.len() == 0 && response.body@.len() == 0
    } else if member(payload, "method"@) == Some(JsonView::Text("initialize"@)) {
        r matches PostStep::Respond(response) && exists|result: JsonView|
            #[trigger] introduces(result, version) && answers_result(response, id->0, result)
    } else if member(payload, "method"@) == Some(JsonView::Text("ping"@)) {
        r matches PostStep::Respond(response) && answers_result(
            response,
            id->0,
            JsonView::Object(Map::empty()),
        )
    } else {
        r matches PostStep::Dispatch(call) && {
            &&& call.caller.session_uuid@ == caller.session_uuid@
            &&& call.caller.hub_id@ == caller.hub_id@
            &&& call.caller.context@ == caller.context@
            &&& id == Some(call.id@)
            &&& member(payload, "method"@) == Some(JsonView::Text(call.method@))
            &&& member(payload, "params"@) matches Some(params) ==> call.params@ == params
            &&& member(payload, "params"@) is None ==> call.params@ == JsonView::Object(
                Map::empty(),
            )
        }
    }
}

proof fn lemma_handled(r: PostStep, caller: McpCaller, payload: JsonView, version: Seq<char>)
    requires
        r@ == payload_step(caller@, payload, version),
    ensures
        handled_as_asked(r, caller, payload, version),
{
    let id = member(payload, "id"@);
    let method = payload_method(payload);
    reveal_strlit("initialize");
    reveal_strlit("ping");
    assert("initialize"@.len() == 10 && "ping"@.len() == 4);
    if let PostStep::Respond(response) = r {
        if text_member(payload, "jsonrpc"@) != Some("2.0"@) {
            lemma_error_object(-32600, "invalid JSON-RPC version"@);
            lemma_error(response, None, error_object(-32600, "invalid JSON-RPC version"@));
        } else if method.len() == 0 {
            lemma_error_object(-32600, "missing method"@);
            lemma_error(response, id, error_object(-32600, "missing method"@));
        } else if id is None {
            assert(response@.headers.len() == 0);
        } else if method == "initialize"@ {
            lemma_introduces(version);
            lemma_result(response, id, initialize_view(version));
        } else {
            lemma_result(response, id, JsonView::Object(Map::empty()));
        }
    }
}

/// A payload is handled as it asks, whatever it holds.
pub proof fn a_payload_is_handled_as_it_asks(
    caller: McpCaller,
    payload: &Json,
    version: &str,
    r: PostStep,
)
    requires
        call_ensures(handle_payload, (caller, payload, version), r),
    ensures
        handled_as_asked(r, caller, payload@, version@),
{
    lemma_handled(r, caller, payload@, version@);
}

/// A body within a mebibyte that is JSON is handled as it asks; one that is not
/// JSON, one beyond that size and one that could not be read are refused.
pub proof fn a_body_is_handled_as_it_asks(
    caller: McpCaller,
    body: Option<&[u8]>,
    version: &str,
    r: PostStep,
)
    requires
        call_ensures(handle_post, (caller, body, version), r),
    ensures
        match body {
            None => r matches PostStep::Respond(response) && refuses(
                response,
                413,
                "request body too large"@,
            ),
            Some(body) => if body@.len() > 1024 * 1024 {
                r matches PostStep::Respond(response) && refuses(
                    response,
                    413,
                    "request body too large"@,
                )
            } else {
                match json_parse(body@) {
                    None => r matches PostStep::Respond(response) && refuses(
                        response,
                        400,
                        "invalid JSON-RPC body"@,
                    ),
                    Some(payload) => handled_as_asked(r, caller, payload, version@),
                }
            },
        },
{
    if body is None || body->0@.len() > BODY_LIMIT {
        lemma_refusal(r->Respond_0, 413, "request body too large"@);
    } else {
        match json_parse(body->0@) {
            None => lemma_refusal(r->Respond_0, 400, "invalid JSON-RPC body"@),
            Some(payload) => lemma_handled(r, caller, payload, version@),
        }
    }
}

/// A payload is dispatched exactly where it has the version, an id and a method
/// that is neither `initialize` nor `ping`. It is dispatched for the caller that
/// sent it, with its own id and method, and with the very parameters that it
/// has; without any they are the empty object.
pub proof fn a_dispatch_carries_the_parameters_of_its_request(
    caller: McpCaller,
    payload: &Json,
    version: &str,
    r: PostStep,
)
    requires
        call_ensures(handle_payload, (caller, payload, version), r),
    ensures
        r is Dispatch <==> {
            &&& member(payload@, "jsonrpc"@) == Some(JsonView::Text("2.0"@))
            &&& member(payload@, "id"@) is Some
            &&& member(payload@, "method"@) matches Some(JsonView::Text(method)) && method.len() > 0
                && method != "initialize"@ && method != "ping"@
        },
        r matches PostStep::Dispatch(call) ==> {
            &&& call.caller.session_uuid@ == caller.session_uuid@
            &&& call.caller.hub_id@ == caller.hub_id@
            &&& call.caller.context@ == caller.context@
            &&& member(payload@, "id"@) == Some(call.id@)
            &&& member(payload@, "method"@) == Some(JsonView::Text(call.method@))
            &&& member(payload@, "params"@) matches Some(params) ==> call.params@ == params
            &&& member(payload@, "params"@) is None ==> call.params@ == JsonView::Object(
                Map::empty(),
            )
        },
{
    lemma_handled(r, caller, payload@, version@);
}

/// What a POST of raw bytes dispatches is what its JSON asks for: the parameters
/// are those of the parsed body.
pub proof fn a_post_dispatches_the_parameters_of_its_body(
    caller: McpCaller,
    body: &[u8],
    version: &str,
    payload: JsonView,
    r: PostStep,
)
    requires
        call_ensures(handle_post, (caller, Some(body), version), r),
        json_parse(body@) == Some(payload),
    ensures
        r matches PostStep::Dispatch(call) ==> {
            &&& call.caller.session_uuid@ == caller.session_uuid@
            &&& call.caller.hub_id@ == caller.hub_id@
            &&& call.caller.context@ == caller.context@
            &&& member(payload, "id"@) == Some(call.id@)
            &&& member(payload, "method"@) == Some(JsonView::Text(call.method@))
            &&& member(payload, "params"@) matches Some(params) ==> call.params@ == params
            &&& member(payload, "params"@) is None ==> call.params@ == JsonView::Object(
                Map::empty(),
            )
        },
        body@.len() <= 1024 * 1024 && member(payload, "jsonrpc"@) == Some(JsonView::Text("2.0"@))
            && member(payload, "id"@) is Some && (member(payload, "method"@) matches Some(
            JsonView::Text(method),
        ) && method.len() > 0 && method != "initialize"@ && method != "ping"@) ==> r is Dispatch,
{
    if body@.len() <= BODY_LIMIT {
        lemma_handled(r, caller, payload, version@);
    }
}

} // verus!
