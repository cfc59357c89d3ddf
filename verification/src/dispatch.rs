//! Dispatch of one method, and what its outcome answers.

use crate::caller::McpCaller;
use crate::fanout::McpListKind;
use crate::headers::bytes_view;
use crate::json::{member, text_member, Json, JsonView};
use crate::registry::McpCallerRegistry;
use crate::response::{
    an_answer_carries_the_request_id, answers_error, answers_result, error_envelope, error_object,
    error_view, id_or_null, json_body, jsonrpc_error, jsonrpc_error_object, jsonrpc_result,
    lemma_error, lemma_error_object, lemma_result, names_error, result_envelope, result_view,
    HttpResponse, McpHttpReply, ReplyView, ResponseView,
};
use crate::server::{
    event_stream_view, handle_post, post_step, route, route_view, sse_response, PostStep,
    RequestHead, Route, RouteView, StepView,
};
use crate::text::{one_line, same_text, starts_with};
use vstd::prelude::*;

verus! {

/// How many seconds a call of a tool, a prompt or a resource may take.
pub const HUB_DISPATCH_TIMEOUT_SECS: u64 = 86400;

/// How many seconds every other method may take.
pub const HUB_QUICK_TIMEOUT_SECS: u64 = 15;

/// A method that may run for long.
pub open spec fn long_running(method: Seq<char>) -> bool {
    "tools/call"@.is_prefix_of(method) || method == "prompts/get"@ || method == "resources/read"@
}

/// How many seconds the HTTP layer waits for a method.
pub fn dispatch_timeout_secs(method: &str) -> (r: u64)
    ensures
        r == (if long_running(method@) {
            HUB_DISPATCH_TIMEOUT_SECS
        } else {
            HUB_QUICK_TIMEOUT_SECS
        }),
{
    if starts_with(method, "tools/call") || same_text(method, "prompts/get") || same_text(
        method,
        "resources/read",
    ) {
        HUB_DISPATCH_TIMEOUT_SECS
    } else {
        HUB_QUICK_TIMEOUT_SECS
    }
}

/// How the dispatch of a method over the event loop ended.
#[derive(Debug)]
pub enum HubOutcome {
    /// The event loop took no request.
    NotAccepted,
    /// No reply came in time.
    TimedOut,
    /// The reply was given up.
    Dropped,
    /// A reply came.
    Replied(McpHttpReply),
}

/// The reply of a dispatch, or why there is none.
pub open spec fn reply_view(reply: Result<McpHttpReply, String>) -> Result<ReplyView, Seq<char>> {
    match reply {
        Ok(reply) => Ok(reply@),
        Err(message) => Err(message@),
    }
}

/// What an outcome of the event loop comes to.
pub open spec fn hub_reply_view(outcome: HubOutcome) -> Result<ReplyView, Seq<char>> {
    match outcome {
        HubOutcome::NotAccepted => Err("hub event loop is not accepting MCP requests"@),
        HubOutcome::TimedOut => Err("hub MCP dispatch timed out"@),
        HubOutcome::Dropped => Err("hub MCP dispatch dropped"@),
        HubOutcome::Replied(reply) => Ok(reply@),
    }
}

/// The reply of a dispatch over the event loop, or why there is none.
pub fn hub_reply(outcome: HubOutcome) -> (r: Result<McpHttpReply, String>)
    ensures
        reply_view(r) == hub_reply_view(outcome),
{
    match outcome {
        HubOutcome::NotAccepted => Err("hub event loop is not accepting MCP requests".to_owned()),
        HubOutcome::TimedOut => Err("hub MCP dispatch timed out".to_owned()),
        HubOutcome::Dropped => Err("hub MCP dispatch dropped".to_owned()),
        HubOutcome::Replied(reply) => Ok(reply),
    }
}

/// What the outcome of a direct dispatch comes to.
pub open spec fn direct_reply_view(outcome: Result<Json, String>) -> ReplyView {
    match outcome {
        Ok(result) => ReplyView::result(result@),
        Err(message) => ReplyView::error(-32000, message@),
    }
}

/// The reply of a direct dispatch.
pub fn direct_reply(outcome: Result<Json, String>) -> (r: McpHttpReply)
    ensures
        r@ == direct_reply_view(outcome),
{
    match outcome {
        Ok(result) => McpHttpReply::result(result),
        Err(message) => McpHttpReply::error(-32000, message.as_str()),
    }
}

/// The answer to a dispatched request: a result if the reply has one, else its
/// error, else an internal error that says what was missing.
pub open spec fn reply_response(
    id: JsonView,
    reply: Result<ReplyView, Seq<char>>,
) -> ResponseView {
    match reply {
        Ok(reply) => match reply.result {
            Some(result) => result_view(Some(id), result),
            None => match reply.error {
                Some(error) => error_view(Some(id), error),
                None => error_view(Some(id), error_object(-32603, "empty MCP reply"@)),
            },
        },
        Err(message) => error_view(Some(id), error_object(-32603, message)),
    }
}

/// Answers a dispatched request.
pub fn finish_post(id: Json, reply: Result<McpHttpReply, String>) -> (r: HttpResponse)
    ensures
        r@ == reply_response(id@, reply_view(reply)),
        one_line(r@.body),
{
    match reply {
        Ok(McpHttpReply { result: Some(result), error: _ }) => jsonrpc_result(Some(id), result),
        Ok(McpHttpReply { result: None, error: Some(error) }) => jsonrpc_error_object(
            Some(id),
            error,
        ),
        Ok(McpHttpReply { result: None, error: None }) => jsonrpc_error(
            Some(id),
            -32603,
            "empty MCP reply",
        ),
        Err(message) => jsonrpc_error(Some(id), -32603, message.as_str()),
    }
}

/// Handles a whole request with a dispatcher that answers at once.
///
/// The dispatcher is asked at most once, and for nothing but the call of an
/// authorized request, with the identity that its token stands for.
pub fn handle_request<F: FnOnce(McpCaller, String, Json) -> Result<Json, String>>(
    callers: &McpCallerRegistry,
    head: &RequestHead,
    body: Option<&[u8]>,
    pending: &Vec<McpListKind>,
    version: &str,
    dispatcher: F,
) -> (r: HttpResponse)
    requires
        forall|caller: McpCaller, method: String, params: Json|
            (route_view(callers@, head@) matches RouteView::Post(c) && post_step(
                c,
                bytes_view(body),
                version@,
            ) matches StepView::Dispatch(call) && caller@ == call.caller && method@ == call.method
                && params@ == call.params) ==> #[trigger] call_requires(
                dispatcher,
                (caller, method, params),
            ),
    ensures
        match route_view(callers@, head@) {
            RouteView::Respond(response) => r@ == response,
            RouteView::Events => r@ == event_stream_view(pending@),
            RouteView::Post(caller) => match post_step(
                caller,
                bytes_view(body),
                version@,
            ) {
                StepView::Respond(response) => r@ == response,
                StepView::Dispatch(call) => exists|
                    who: McpCaller,
                    method: String,
                    params: Json,
                    outcome: Result<Json, String>,
                |
                    {
                        &&& who@ == call.caller
                        &&& method@ == call.method
                        &&& params@ == call.params
                        &&& #[trigger] call_ensures(dispatcher, (who, method, params), outcome)
                        &&& r@ == reply_response(call.id, Ok(direct_reply_view(outcome)))
                    },
            },
        },
        !(route_view(callers@, head@) is Events) ==> one_line(r@.body),
{
    match route(callers, head) {
        Route::Respond(response) => response,
        Route::Events => sse_response(pending),
        Route::Post(caller) => match handle_post(caller, body, version) {
            PostStep::Respond(response) => response,
            PostStep::Dispatch(call) => {
                let outcome = dispatcher(call.caller, call.method, call.params);
                finish_post(call.id, Ok(direct_reply(outcome)))
            },
        },
    }
}

/// Whatever a dispatch comes to, the answer is a JSON-RPC message under the id
/// of its request.
pub proof fn every_outcome_is_answered_under_its_id(
    id: JsonView,
    reply: Result<ReplyView, Seq<char>>,
)
    ensures
        exists|message: JsonView| #[trigger]
            json_body(200, message) == reply_response(id, reply) && member(message, "id"@) == Some(
                id,
            ) && text_member(message, "jsonrpc"@) == Some("2.0"@),
{
    let (result, error) = match reply {
        Ok(reply) => (
            id_or_null(reply.result),
            match reply.error {
                Some(error) => error,
                None => error_object(-32603, "empty MCP reply"@),
            },
        ),
        Err(message) => (JsonView::Null, error_object(-32603, message)),
    };
    an_answer_carries_the_request_id(Some(id), result, error);
    let message = if reply matches Ok(reply) && reply.result is Some {
        result_envelope(Some(id), result)
    } else {
        error_envelope(Some(id), error)
    };
    assert(json_body(200, message) == reply_response(id, reply));
}

/// A direct dispatch answers with the result of the dispatcher, or with its
/// message under the server-error code.
pub proof fn direct_outcomes_are_passed_on(id: JsonView, outcome: Result<Json, String>)
    ensures
        outcome matches Ok(result) ==> reply_response(id, Ok(direct_reply_view(outcome)))
            == result_view(Some(id), result@),
        outcome matches Err(message) ==> reply_response(id, Ok(direct_reply_view(outcome)))
            == error_view(Some(id), error_object(-32000, message@)),
{
}

/// A call of a tool, a prompt or a resource may take a day, every other method
/// fifteen seconds.
pub proof fn long_calls_have_a_day(method: &str, rest: Seq<char>, secs: u64)
    requires
        call_ensures(dispatch_timeout_secs, (method,), secs),
    ensures
        method@ == "tools/call"@ + rest ==> secs == 24 * 60 * 60,
        method@ == "prompts/get"@ || method@ == "resources/read"@ ==> secs == 24 * 60 * 60,
        method@ != "prompts/get"@ && method@ != "resources/read"@ && !"tools/call"@.is_prefix_of(
            method@,
        ) ==> secs == 15,
{
    assert("tools/call"@ =~= ("tools/call"@ + rest).subrange(0, "tools/call"@.len() as int));
}

/// A reply over the event loop is passed on as it is; without one, the reason
/// is.
pub proof fn hub_outcomes_are_passed_on(outcome: HubOutcome, r: Result<McpHttpReply, String>)
    requires
        call_ensures(hub_reply, (outcome,), r),
    ensures
        match outcome {
            HubOutcome::Replied(reply) => r matches Ok(passed) && passed@ == reply@,
            HubOutcome::NotAccepted => r matches Err(message) && message@
                == "hub event loop is not accepting MCP requests"@,
            HubOutcome::TimedOut => r matches Err(message) && message@
                == "hub MCP dispatch timed out"@,
            HubOutcome::Dropped => r matches Err(message) && message@
                == "hub MCP dispatch dropped"@,
        },
{
}

/// What a reply is: its own result and its own error.
pub proof fn a_reply_is_its_result_and_error(reply: McpHttpReply)
    ensures
        reply.result matches Some(result) ==> reply@.result == Some(result@),
        reply.result is None ==> reply@.result is None,
        reply.error matches Some(error) ==> reply@.error == Some(error@),
        reply.error is None ==> reply@.error is None,
{
}

/// The outcome of a dispatcher is the reply: its result, or its message under
/// the server-error code.
pub proof fn a_direct_reply_is_the_outcome(outcome: Result<Json, String>, r: McpHttpReply)
    requires
        call_ensures(direct_reply, (outcome,), r),
    ensures
        outcome matches Ok(value) ==> r.error is None && (r.result matches Some(result)
            && result@ == value@),
        outcome matches Err(message) ==> r.result is None && (r.error matches Some(error)
            && names_error(error@, -32000, message@)),
{
    if let Err(message) = outcome {
        lemma_error_object(-32000, message@);
    }
}

/// A dispatched request is answered under its id with the result of the reply,
/// else with its error, else with an internal error that says what was missing.
pub proof fn a_reply_is_answered_under_its_id(
    id: Json,
    reply: Result<McpHttpReply, String>,
    r: HttpResponse,
)
    requires
        call_ensures(finish_post, (id, reply), r),
    ensures
        match reply {
            Ok(McpHttpReply { result: Some(result), error: _ }) => answers_result(
                r,
                id@,
                result@,
            ),
            Ok(McpHttpReply { result: None, error: Some(error) }) => answers_error(
                r,
                id@,
                error@,
            ),
            Ok(McpHttpReply { result: None, error: None }) => exists|error: JsonView|
                #[trigger] names_error(error, -32603, "empty MCP reply"@) && answers_error(
                    r,
                    id@,
                    error,
                ),
            Err(message) => exists|error: JsonView|
                #[trigger] names_error(error, -32603, message@) && answers_error(r, id@, error),
        },
{
    match reply {
        Ok(McpHttpReply { result: Some(result), error: _ }) => lemma_result(
            r,
            Some(id@),
            result@,
        ),
        Ok(McpHttpReply { result: None, error: Some(error) }) => lemma_error(
            r,
            Some(id@),
            error@,
        ),
        Ok(McpHttpReply { result: None, error: None }) => {
            lemma_error_object(-32603, "empty MCP reply"@);
            lemma_error(r, Some(id@), error_object(-32603, "empty MCP reply"@));
        },
        Err(message) => {
            lemma_error_object(-32603, message@);
            lemma_error(r, Some(id@), error_object(-32603, message@));
        },
    }
}

/// A whole request is answered as it is routed: with the refusal of its head,
/// with the event stream, or, over POST, with the answer of its body or under
/// its id with what the dispatcher gave for it.
pub proof fn a_request_is_answered_as_it_is_routed<
    F: FnOnce(McpCaller, String, Json) -> Result<Json, String>,
>(
    callers: &McpCallerRegistry,
    head: &RequestHead,
    body: Option<&[u8]>,
    pending: &Vec<McpListKind>,
    version: &str,
    dispatcher: F,
    way: Route,
    events: HttpResponse,
    step: PostStep,
    r: HttpResponse,
)
    requires
        call_ensures(
            handle_request::<F>,
            (callers, head, body, pending, version, dispatcher),
            r,
        ),
        call_ensures(route, (callers, head), way),
        call_ensures(sse_response, (pending,), events),
        way matches Route::Post(caller) ==> call_ensures(
            handle_post,
            (caller, body, version),
            step,
        ),
    ensures
        way matches Route::Respond(response) ==> r@ == response@,
        way is Events ==> r@ == events@,
        way is Post ==> match step {
            PostStep::Respond(response) => r@ == response@,
            PostStep::Dispatch(call) => exists|
                who: McpCaller,
                method: String,
                params: Json,
                outcome: Result<Json, String>,
            |
                {
                    &&& who@ == call.caller@
                    &&& method@ == call.method@
                    &&& params@ == call.params@
                    &&& #[trigger] call_ensures(dispatcher, (who, method, params), outcome)
                    &&& outcome matches Ok(result) ==> answers_result(r, call.id@, result@)
                    &&& outcome matches Err(message) ==> exists|error: JsonView|
                        #[trigger] names_error(error, -32000, message@) && answers_error(
                            r,
                            call.id@,
                            error,
                        )
                },
        },
{
    if way is Post {
        if let PostStep::Dispatch(call) = step {
            let (who, method, params, outcome) = choose|
                who: McpCaller,
                method: String,
                params: Json,
                outcome: Result<Json, String>,
            |
                {
                    &&& who@ == call@.caller
                    &&& method@ == call@.method
                    &&& params@ == call@.params
                    &&& #[trigger] call_ensures(dispatcher, (who, method, params), outcome)
                    &&& r@ == reply_response(call@.id, Ok(direct_reply_view(outcome)))
                };
            match outcome {
                Ok(result) => lemma_result(r, Some(call.id@), result@),
                Err(message) => {
                    lemma_error_object(-32000, message@);
                    lemma_error(r, Some(call.id@), error_object(-32000, message@));
                },
            }
        }
    }
}

} // verus!
