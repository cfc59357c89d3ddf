//! HTTP answers and JSON-RPC envelopes.

use crate::json::{integer_number, json_text, member, only_members, Json, JsonView};
use crate::text::one_line;
use vstd::prelude::*;

verus! {

/// An HTTP answer: status, headers and body.
#[derive(Debug)]
pub struct HttpResponse {
    pub status: u16,
    pub headers: Vec<(String, String)>,
    pub body: String,
}

/// What an HTTP answer is.
pub struct ResponseView {
    pub status: int,
    pub headers: Seq<(Seq<char>, Seq<char>)>,
    pub body: Seq<char>,
}

/// The headers of an answer, name and value.
pub open spec fn headers_view(headers: Seq<(String, String)>) -> Seq<(Seq<char>, Seq<char>)> {
    Seq::new(headers.len(), |i: int| (headers[i].0@, headers[i].1@))
}

impl View for HttpResponse {
    type V = ResponseView;

    open spec fn view(&self) -> ResponseView {
        ResponseView {
            status: self.status as int,
            headers: headers_view(self.headers@),
            body: self.body@,
        }
    }
}

/// An answer without headers and body.
pub open spec fn bare_response(status: int) -> ResponseView {
    ResponseView { status, headers: Seq::empty(), body: Seq::empty() }
}

/// An answer whose body is the text of a JSON value.
pub open spec fn json_body(status: int, value: JsonView) -> ResponseView {
    ResponseView {
        status,
        headers: seq![("content-type"@, "application/json"@)],
        body: json_text(value),
    }
}

/// The answer to a request that HTTP itself refuses.
pub open spec fn http_error_view(status: int, message: Seq<char>) -> ResponseView {
    json_body(status, JsonView::Object(map!["error"@ => JsonView::Text(message)]))
}

/// The id that an answer carries: that of the request, or null.
pub open spec fn id_or_null(id: Option<JsonView>) -> JsonView {
    match id {
        Some(id) => id,
        None => JsonView::Null,
    }
}

/// A JSON-RPC error object.
pub open spec fn error_object(code: int, message: Seq<char>) -> JsonView {
    JsonView::Object(
        map!["code"@ => JsonView::Numeral(integer_number(code)), "message"@ => JsonView::Text(message)],
    )
}

/// A JSON-RPC answer with a result.
pub open spec fn result_envelope(id: Option<JsonView>, result: JsonView) -> JsonView {
    JsonView::Object(
        map!["jsonrpc"@ => JsonView::Text("2.0"@), "id"@ => id_or_null(id), "result"@ => result],
    )
}

/// A JSON-RPC answer with an error.
pub open spec fn error_envelope(id: Option<JsonView>, error: JsonView) -> JsonView {
    JsonView::Object(
        map!["jsonrpc"@ => JsonView::Text("2.0"@), "id"@ => id_or_null(id), "error"@ => error],
    )
}

/// The HTTP answer with a JSON-RPC result.
pub open spec fn result_view(id: Option<JsonView>, result: JsonView) -> ResponseView {
    json_body(200, result_envelope(id, result))
}

/// The HTTP answer with a JSON-RPC error.
pub open spec fn error_view(id: Option<JsonView>, error: JsonView) -> ResponseView {
    json_body(200, error_envelope(id, error))
}

/// The value in an option.
pub open spec fn json_view(v: Option<Json>) -> Option<JsonView> {
    match v {
        Some(v) => Some(v@),
        None => None,
    }
}

/// An answer without headers and body.
pub fn empty_response(status: u16) -> (r: HttpResponse)
    ensures
        r@ == bare_response(status as int),
        one_line(r@.body),
{
    let r = HttpResponse { status, headers: Vec::new(), body: String::new() };
    assert(r@.headers =~= Seq::empty());
    r
}

/// The answer to a notification: accepted, with nothing to say.
pub fn empty_accepted() -> (r: HttpResponse)
    ensures
        r@ == bare_response(202),
        one_line(r@.body),
{
    empty_response(202)
}

fn json_body_response(status: u16, value: &Json) -> (r: HttpResponse)
    ensures
        r@ == json_body(status as int, value@),
        one_line(r@.body),
{
    let mut headers: Vec<(String, String)> = Vec::new();
    headers.push(("content-type".to_owned(), "application/json".to_owned()));
    let r = HttpResponse { status, headers, body: value.to_text() };
    assert(r@.headers =~= seq![("content-type"@, "application/json"@)]);
    r
}

/// The answer to a request that HTTP itself refuses.
pub fn http_error(status: u16, message: &str) -> (r: HttpResponse)
    ensures
        r@ == http_error_view(status as int, message@),
        one_line(r@.body),
{
    json_body_response(status, &Json::empty_object().with("error", Json::text(message)))
}

/// The answer with a JSON value.
pub fn json_response(value: &Json) -> (r: HttpResponse)
    ensures
        r@ == json_body(200, value@),
        one_line(r@.body),
{
    json_body_response(200, value)
}

fn or_null(id: Option<Json>) -> (r: Json)
    ensures
        r@ == id_or_null(json_view(id)),
{
    match id {
        Some(id) => id,
        None => Json::Null,
    }
}

/// The answer with a JSON-RPC result.
pub fn jsonrpc_result(id: Option<Json>, result: Json) -> (r: HttpResponse)
    ensures
        r@ == result_view(json_view(id), result@),
        one_line(r@.body),
{
    json_response(
        &Json::empty_object().with("jsonrpc", Json::text("2.0")).with("id", or_null(id)).with(
            "result",
            result,
        ),
    )
}

/// The answer with a JSON-RPC error object.
pub fn jsonrpc_error_object(id: Option<Json>, error: Json) -> (r: HttpResponse)
    ensures
        r@ == error_view(json_view(id), error@),
        one_line(r@.body),
{
    json_response(
        &Json::empty_object().with("jsonrpc", Json::text("2.0")).with("id", or_null(id)).with(
            "error",
            error,
        ),
    )
}

/// The error object with a code and a message.
pub fn rpc_error(code: i64, message: &str) -> (r: Json)
    ensures
        r@ == error_object(code as int, message@),
{
    Json::empty_object().with("code", Json::integer(code)).with("message", Json::text(message))
}

/// The answer with a JSON-RPC error of a code and a message.
pub fn jsonrpc_error(id: Option<Json>, code: i64, message: &str) -> (r: HttpResponse)
    ensures
        r@ == error_view(json_view(id), error_object(code as int, message@)),
        one_line(r@.body),
{
    jsonrpc_error_object(id, rpc_error(code, message))
}

/// Reply of a dispatched method.
#[derive(Debug)]
pub struct McpHttpReply {
    /// JSON-RPC result object, or `None` when `error` is set.
    pub result: Option<Json>,
    /// JSON-RPC error object, or `None` on success.
    pub error: Option<Json>,
}

/// What a reply is.
pub struct ReplyView {
    pub result: Option<JsonView>,
    pub error: Option<JsonView>,
}

impl View for McpHttpReply {
    type V = ReplyView;

    open spec fn view(&self) -> ReplyView {
        ReplyView { result: json_view(self.result), error: json_view(self.error) }
    }
}

impl ReplyView {
    /// A reply with a result.
    pub open spec fn result(value: JsonView) -> ReplyView {
        ReplyView { result: Some(value), error: None }
    }

    /// A reply with an error.
    pub open spec fn error(code: int, message: Seq<char>) -> ReplyView {
        ReplyView { result: None, error: Some(error_object(code, message)) }
    }
}

impl McpHttpReply {
    /// Successful JSON-RPC result.
    #[must_use]
    pub fn result(value: Json) -> (r: McpHttpReply)
        ensures
            r@ == ReplyView::result(value@),
    {
        McpHttpReply { result: Some(value), error: None }
    }

    /// Failed JSON-RPC error with a message.
    #[must_use]
    pub fn error(code: i64, message: &str) -> (r: McpHttpReply)
        ensures
            r@ == ReplyView::error(code as int, message@),
    {
        McpHttpReply { result: None, error: Some(rpc_error(code, message)) }
    }
}

/// Every JSON-RPC answer says its version and carries the id of its request,
/// and it has a result or an error, never both.
pub proof fn an_answer_carries_the_request_id(
    id: Option<JsonView>,
    result: JsonView,
    error: JsonView,
)
    ensures
        crate::json::member(result_envelope(id, result), "id"@) == Some(id_or_null(id)),
        crate::json::member(error_envelope(id, error), "id"@) == Some(id_or_null(id)),
        crate::json::text_member(result_envelope(id, result), "jsonrpc"@) == Some("2.0"@),
        crate::json::text_member(error_envelope(id, error), "jsonrpc"@) == Some("2.0"@),
        crate::json::member(result_envelope(id, result), "result"@) == Some(result),
        crate::json::member(result_envelope(id, result), "error"@) is None,
        crate::json::member(error_envelope(id, error), "error"@) == Some(error),
        crate::json::member(error_envelope(id, error), "result"@) is None,
{
    reveal_strlit("jsonrpc");
    reveal_strlit("id");
    reveal_strlit("result");
    reveal_strlit("error");
    assert("error"@.len() == 5 && "result"@.len() == 6 && "jsonrpc"@.len() == 7 && "id"@.len() == 2);
}

/// An answer with a status, the JSON content type alone, and a message as its
/// body.
pub open spec fn answers_json(r: HttpResponse, status: int, message: JsonView) -> bool {
    &&& r.status == status
    &&& r.headers@.len() == 1
    &&& r.headers@[0].0@ == "content-type"@
    &&& r.headers@[0].1@ == "application/json"@
    &&& r.body@ == json_text(message)
}

/// An answer of HTTP itself: a status, and an object with the reason.
pub open spec fn refuses(r: HttpResponse, status: int, reason: Seq<char>) -> bool {
    exists|message: JsonView|
        {
            &&& #[trigger] answers_json(r, status, message)
            &&& only_members(message, set!["error"@])
            &&& member(message, "error"@) == Some(JsonView::Text(reason))
        }
}

/// A JSON-RPC answer with a result, under the id of its request.
pub open spec fn answers_result(r: HttpResponse, id: JsonView, result: JsonView) -> bool {
    exists|message: JsonView|
        {
            &&& #[trigger] answers_json(r, 200, message)
            &&& only_members(message, set!["jsonrpc"@, "id"@, "result"@])
            &&& member(message, "jsonrpc"@) == Some(JsonView::Text("2.0"@))
            &&& member(message, "id"@) == Some(id)
            &&& member(message, "result"@) == Some(result)
        }
}

/// A JSON-RPC answer with an error object, under the id of its request.
pub open spec fn answers_error(r: HttpResponse, id: JsonView, error: JsonView) -> bool {
    exists|message: JsonView|
        {
            &&& #[trigger] answers_json(r, 200, message)
            &&& only_members(message, set!["jsonrpc"@, "id"@, "error"@])
            &&& member(message, "jsonrpc"@) == Some(JsonView::Text("2.0"@))
            &&& member(message, "id"@) == Some(id)
            &&& member(message, "error"@) == Some(error)
        }
}

/// An error object: a code, a message, and nothing else.
pub open spec fn names_error(error: JsonView, code: int, message: Seq<char>) -> bool {
    &&& only_members(error, set!["code"@, "message"@])
    &&& member(error, "code"@) == Some(JsonView::Numeral(integer_number(code)))
    &&& member(error, "message"@) == Some(JsonView::Text(message))
}

proof fn lemma_words()
    ensures
        "jsonrpc"@.len() == 7,
        "id"@.len() == 2,
        "result"@.len() == 6,
        "error"@.len() == 5,
        "code"@.len() == 4,
        "message"@.len() == 7,
{
    reveal_strlit("jsonrpc");
    reveal_strlit("id");
    reveal_strlit("result");
    reveal_strlit("error");
    reveal_strlit("code");
    reveal_strlit("message");
}

proof fn lemma_json_answer(r: HttpResponse, status: int, message: JsonView)
    requires
        r@ == json_body(status, message),
    ensures
        answers_json(r, status, message),
{
    assert(r@.headers.len() == 1);
    assert(r@.headers[0] == (r.headers@[0].0@, r.headers@[0].1@));
}

/// An answer of HTTP itself is one where its status and its reason are.
pub(crate) proof fn lemma_refusal(r: HttpResponse, status: int, reason: Seq<char>)
    requires
        r@ == http_error_view(status, reason),
    ensures
        refuses(r, status, reason),
{
    let message = JsonView::Object(map!["error"@ => JsonView::Text(reason)]);
    lemma_json_answer(r, status, message);
    assert(only_members(message, set!["error"@]));
}

/// An answer with a result is one where its id and its result are.
pub(crate) proof fn lemma_result(r: HttpResponse, id: Option<JsonView>, result: JsonView)
    requires
        r@ == result_view(id, result),
    ensures
        answers_result(r, if id is Some { id->0 } else { JsonView::Null }, result),
{
    lemma_words();
    let message = result_envelope(id, result);
    lemma_json_answer(r, 200, message);
    assert(only_members(message, set!["jsonrpc"@, "id"@, "result"@]));
}

/// An answer with an error is one where its id and its error are.
pub(crate) proof fn lemma_error(r: HttpResponse, id: Option<JsonView>, error: JsonView)
    requires
        r@ == error_view(id, error),
    ensures
        answers_error(r, if id is Some { id->0 } else { JsonView::Null }, error),
{
    lemma_words();
    let message = error_envelope(id, error);
    lemma_json_answer(r, 200, message);
    assert(only_members(message, set!["jsonrpc"@, "id"@, "error"@]));
}

/// An error object names its code and its message.
pub(crate) proof fn lemma_error_object(code: int, message: Seq<char>)
    ensures
        names_error(error_object(code, message), code, message),
{
    lemma_words();
    assert(only_members(error_object(code, message), set!["code"@, "message"@]));
}

/// A request that HTTP refuses is answered with the status and the reason.
pub proof fn refusals_say_what_is_wrong(status: u16, reason: &str, r: HttpResponse)
    requires
        call_ensures(http_error, (status, reason), r),
    ensures
        refuses(r, status as int, reason@),
{
    lemma_refusal(r, status as int, reason@);
}

/// A JSON value is answered as it is.
pub proof fn json_is_answered_as_it_is(value: &Json, r: HttpResponse)
    requires
        call_ensures(json_response, (value,), r),
    ensures
        answers_json(r, 200, value@),
{
    lemma_json_answer(r, 200, value@);
}

/// A result is answered whole and under the id of the request, or under null
/// where the request had none.
pub proof fn results_are_answered_under_their_id(id: Option<Json>, result: Json, r: HttpResponse)
    requires
        call_ensures(jsonrpc_result, (id, result), r),
    ensures
        id matches Some(id) ==> answers_result(r, id@, result@),
        id is None ==> answers_result(r, JsonView::Null, result@),
{
    lemma_result(r, json_view(id), result@);
}

/// An error is answered whole and under the id of the request, or under null
/// where the request had none.
pub proof fn errors_are_answered_under_their_id(id: Option<Json>, error: Json, r: HttpResponse)
    requires
        call_ensures(jsonrpc_error_object, (id, error), r),
    ensures
        id matches Some(id) ==> answers_error(r, id@, error@),
        id is None ==> answers_error(r, JsonView::Null, error@),
{
    lemma_error(r, json_view(id), error@);
}

/// An error of a code and a message is answered with both.
pub proof fn errors_are_answered_with_code_and_message(
    id: Option<Json>,
    code: i64,
    message: &str,
    r: HttpResponse,
)
    requires
        call_ensures(jsonrpc_error, (id, code, message), r),
    ensures
        exists|error: JsonView|
            {
                &&& #[trigger] names_error(error, code as int, message@)
                &&& id matches Some(id) ==> answers_error(r, id@, error)
                &&& id is None ==> answers_error(r, JsonView::Null, error)
            },
{
    lemma_error_object(code as int, message@);
    lemma_error(r, json_view(id), error_object(code as int, message@));
}

/// An error object that is made of a code and a message names both.
pub proof fn an_error_object_names_code_and_message(code: i64, message: &str, r: Json)
    requires
        call_ensures(rpc_error, (code, message), r),
    ensures
        names_error(r@, code as int, message@),
{
    lemma_error_object(code as int, message@);
}

/// An answer with nothing to say has its status alone; a notification is
/// accepted with one.
pub proof fn empty_answers_have_a_status_alone(status: u16, r: HttpResponse, accepted: HttpResponse)
    requires
        call_ensures(empty_response, (status,), r),
        call_ensures(empty_accepted, (), accepted),
    ensures
        r.status == status && r.headers@.len() == 0 && r.body@.len() == 0,
        accepted.status == 202 && accepted.headers@.len() == 0 && accepted.body@.len() == 0,
{
    assert(r@.headers.len() == 0);
    assert(accepted@.headers.len() == 0);
}

/// A reply holds the result that it is made of and no error, or the error of
/// its code and message and no result.
pub proof fn replies_hold_what_they_are_made_of(
    value: Json,
    code: i64,
    message: &str,
    good: McpHttpReply,
    bad: McpHttpReply,
)
    requires
        call_ensures(McpHttpReply::result, (value,), good),
        call_ensures(McpHttpReply::error, (code, message), bad),
    ensures
        good.result matches Some(result) && result@ == value@,
        good.error is None,
        bad.result is None,
        bad.error matches Some(error) && names_error(error@, code as int, message@),
{
    lemma_error_object(code as int, message@);
}

/// An answer with a result is a JSON-RPC message of status 200 with the id and
/// the result, and an answer with an error one with the id and the error.
pub proof fn answers_say_what_they_hold(
    id: Json,
    value: Json,
    good: HttpResponse,
    bad: HttpResponse,
)
    requires
        call_ensures(jsonrpc_result, (Some(id), value), good),
        call_ensures(jsonrpc_error_object, (Some(id), value), bad),
    ensures
        good.status == 200 && bad.status == 200,
        exists|message: JsonView|
            {
                &&& good.body@ == #[trigger] json_text(message)
                &&& member(message, "jsonrpc"@) == Some(JsonView::Text("2.0"@))
                &&& member(message, "id"@) == Some(id@)
                &&& member(message, "result"@) == Some(value@)
                &&& member(message, "error"@) is None
            },
        exists|message: JsonView|
            {
                &&& bad.body@ == #[trigger] json_text(message)
                &&& member(message, "jsonrpc"@) == Some(JsonView::Text("2.0"@))
                &&& member(message, "id"@) == Some(id@)
                &&& member(message, "error"@) == Some(value@)
                &&& member(message, "result"@) is None
            },
{
    an_answer_carries_the_request_id(Some(id@), value@, value@);
    assert(good.body@ == json_text(result_envelope(Some(id@), value@)));
    assert(bad.body@ == json_text(error_envelope(Some(id@), value@)));
}

/// A refusal has its status and an object with its reason; an error of a code
/// and a message is an object with both.
pub proof fn refusals_and_errors_say_why(
    status: u16,
    reason: &str,
    refusal: HttpResponse,
    code: i64,
    message: &str,
    error: Json,
)
    requires
        call_ensures(http_error, (status, reason), refusal),
        call_ensures(rpc_error, (code, message), error),
    ensures
        refusal.status == status,
        exists|said: JsonView|
            refusal.body@ == #[trigger] json_text(said) && member(said, "error"@) == Some(
                JsonView::Text(reason@),
            ),
        member(error@, "code"@) == Some(JsonView::Numeral(integer_number(code as int))),
        member(error@, "message"@) == Some(JsonView::Text(message@)),
{
    lemma_words();
    let said = JsonView::Object(map!["error"@ => JsonView::Text(reason@)]);
    assert(refusal.body@ == json_text(said));
}

} // verus!
