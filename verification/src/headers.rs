//! Request headers.

use crate::text::{
    after_prefix, contains, has_infix, join, strip_prefix, trim, trim_end, trim_start, trimmed,
    trimmed_text_has_no_outer_white_space, white_space,
};
use crate::token::{hex_digit, token_text, CALLER_TOKEN_PREFIX};
use hyper::header::HeaderValue;
use vstd::prelude::*;

verus! {

/// A byte that may stand in the text of a header: visible ASCII, space or tab.
pub open spec fn header_byte(b: u8) -> bool {
    32 <= b < 127 || b == 9
}

/// The text of a header value, where every byte of it is text.
pub open spec fn header_text_view(value: Seq<u8>) -> Option<Seq<char>> {
    if forall|i: int| 0 <= i < value.len() ==> header_byte(#[trigger] value[i]) {
        Some(Seq::new(value.len(), |i: int| value[i] as char))
    } else {
        None
    }
}

/// `HeaderValue::from_bytes` and `HeaderValue::to_str` of `hyper`: the text of
/// a header value where every byte of it is visible ASCII, space or tab, and
/// nothing otherwise.
#[verifier::external_body]
fn header_text(value: &[u8]) -> (r: Option<String>)
    ensures
        match r {
            Some(s) => header_text_view(value@) == Some(s@),
            None => header_text_view(value@) is None,
        },
{
    let header = HeaderValue::from_bytes(value).ok()?;
    header.to_str().ok().map(str::to_owned)
}

/// What follows the bearer scheme in the text of an Authorization header.
pub open spec fn after_scheme(value: Seq<char>) -> Option<Seq<char>> {
    match after_prefix(value, "Bearer "@) {
        Some(rest) => Some(rest),
        None => after_prefix(value, "bearer "@),
    }
}

/// The token in an Authorization header: what follows the bearer scheme,
/// without white space around it, unless that leaves nothing.
pub open spec fn bearer_token(authorization: Option<Seq<u8>>) -> Option<Seq<char>> {
    match authorization {
        None => None,
        Some(bytes) => match header_text_view(bytes) {
            None => None,
            Some(value) => match after_scheme(value) {
                None => None,
                Some(rest) => if trimmed(rest).len() == 0 {
                    None
                } else {
                    Some(trimmed(rest))
                },
            },
        },
    }
}

/// The bytes in an option.
pub open spec fn bytes_view(value: Option<&[u8]>) -> Option<Seq<u8>> {
    match value {
        Some(value) => Some(value@),
        None => None,
    }
}

/// The bearer token of a request, from the bytes of its Authorization header.
pub fn extract_bearer(authorization: Option<&[u8]>) -> (r: Option<String>)
    ensures
        match r {
            Some(token) => bearer_token(bytes_view(authorization)) == Some(token@),
            None => bearer_token(bytes_view(authorization)) is None,
        },
{
    let value = match authorization {
        Some(bytes) => match header_text(bytes) {
            Some(value) => value,
            None => {
                return None;
            },
        },
        None => {
            return None;
        },
    };
    let rest = match strip_prefix(value.as_str(), "Bearer ") {
        Some(rest) => rest,
        None => match strip_prefix(value.as_str(), "bearer ") {
            Some(rest) => rest,
            None => {
                return None;
            },
        },
    };
    let token = trim(rest.as_str());
    if token.as_str().is_empty() {
        None
    } else {
        Some(token)
    }
}

/// An Accept header that names the event-stream type.
pub open spec fn accepts_events(accept: Option<Seq<u8>>) -> bool {
    match accept {
        None => false,
        Some(bytes) => match header_text_view(bytes) {
            None => false,
            Some(value) => has_infix(value, "text/event-stream"@),
        },
    }
}

/// Whether a request asks for an event stream, from the bytes of its Accept
/// header.
pub fn accepts_event_stream(accept: Option<&[u8]>) -> (r: bool)
    ensures
        r == accepts_events(bytes_view(accept)),
{
    match accept {
        Some(bytes) => match header_text(bytes) {
            Some(value) => contains(value.as_str(), "text/event-stream"),
            None => false,
        },
        None => false,
    }
}

/// A token that was taken from a header is not empty and has no white space at
/// either end.
pub proof fn an_extracted_token_is_trimmed(authorization: Option<Seq<u8>>)
    ensures
        bearer_token(authorization) matches Some(token) ==> {
            &&& token.len() > 0
            &&& !white_space(token[0])
            &&& !white_space(token.last())
        },
{
    if bearer_token(authorization) is Some {
        let value = header_text_view(authorization->0)->0;
        trimmed_text_has_no_outer_white_space(after_scheme(value)->0);
    }
}

/// The value of an Authorization header that presents a token.
pub fn bearer_header(token: &str) -> (r: String)
    ensures
        r@ == "Bearer "@ + token@,
{
    join("Bearer ", token)
}

/// The bytes of a text, one for each character.
pub open spec fn text_bytes(s: Seq<char>) -> Seq<u8> {
    Seq::new(s.len(), |i: int| s[i] as u8)
}

/// A token that a header can carry as it is: text without white space at
/// either end.
pub open spec fn presentable(token: Seq<char>) -> bool {
    &&& token.len() > 0
    &&& forall|i: int|
        0 <= i < token.len() ==> ' ' <= #[trigger] token[i] <= '~'
    &&& !white_space(token[0])
    &&& !white_space(token.last())
}

proof fn lemma_visible_char(c: char)
    requires
        ' ' <= c <= '~',
    ensures
        header_byte(c as u8),
        (c as u8) as char == c,
{
}

/// A header that presents a token gives the token back.
pub proof fn a_bearer_header_gives_back_its_token(token: Seq<char>)
    requires
        presentable(token),
    ensures
        bearer_token(Some(text_bytes("Bearer "@ + token))) == Some(token),
{
    reveal_strlit("Bearer ");
    let value = "Bearer "@ + token;
    let bytes = text_bytes(value);
    assert forall|i: int| 0 <= i < bytes.len() implies header_byte(#[trigger] bytes[i]) && bytes[i] as char
        == value[i] by {
        if i >= 7 {
            assert(value[i] == token[i - 7]);
        } else {
            assert(value[i] == "Bearer "@[i]);
        }
        lemma_visible_char(value[i]);
    }
    assert(header_text_view(bytes)->0 =~= value);
    assert("Bearer "@ =~= value.subrange(0, 7));
    assert(after_prefix(value, "Bearer "@)->0 =~= token);
    assert(trim_start(token) == token);
    assert(trim_end(token) == token);
}

proof fn lemma_no_white_space(c: char)
    requires
        '!' <= c <= '~',
    ensures
        !white_space(c),
{
}

/// Every issued token can be presented in a header.
pub proof fn issued_tokens_are_presentable(secret: Seq<u8>)
    ensures
        presentable(token_text(secret)),
{
    reveal_strlit("btcaller_");
    reveal_strlit("0123456789abcdef");
    let token = token_text(secret);
    assert forall|n: int| 0 <= n < 16 implies '0' <= #[trigger] hex_digit(n) <= 'f' by {}
    let k = CALLER_TOKEN_PREFIX@.len() as int;
    assert forall|i: int| 0 <= i < token.len() implies '!' <= #[trigger] token[i] <= '~' by {
        if i >= k {
            let b = secret[(i - k) / 2] as int;
            assert(token[i] == hex_digit(
                if (i - k) % 2 == 0 {
                    b / 16
                } else {
                    b % 16
                },
            ));
        }
    }
    lemma_no_white_space(token[0]);
    lemma_no_white_space(token.last());
}

/// A text that a header can carry: visible ASCII, spaces and tabs.
pub open spec fn sendable(s: Seq<char>) -> bool {
    forall|i: int| 0 <= i < s.len() ==> ' ' <= #[trigger] s[i] <= '~' || s[i] == '\t'
}

/// The bytes of a header are read as the text that was sent; bytes that are no
/// text are not read.
pub proof fn headers_are_read_as_sent(s: Seq<char>, bytes: Seq<u8>, i: int)
    requires
        sendable(s),
        0 <= i < bytes.len(),
        bytes[i] > 126 || (bytes[i] < 32 && bytes[i] != 9),
    ensures
        header_text_view(text_bytes(s)) == Some(s),
        header_text_view(bytes) is None,
{
    lemma_sent(s);
    assert(!header_byte(bytes[i]));
}

proof fn lemma_sent(s: Seq<char>)
    requires
        sendable(s),
    ensures
        header_text_view(text_bytes(s)) == Some(s),
{
    let bytes = text_bytes(s);
    assert forall|i: int| 0 <= i < bytes.len() implies header_byte(#[trigger] bytes[i]) && bytes[i] as char
        == s[i] by {
        lemma_sendable_char(s[i]);
    }
    assert(header_text_view(bytes)->0 =~= s);
}

proof fn lemma_sendable_char(c: char)
    requires
        ' ' <= c <= '~' || c == '\t',
    ensures
        header_byte(c as u8),
        (c as u8) as char == c,
{
}

proof fn lemma_schemes_differ(rest: Seq<char>)
    ensures
        !"Bearer "@.is_prefix_of("bearer "@ + rest),
{
    reveal_strlit("Bearer ");
    reveal_strlit("bearer ");
    if "Bearer "@.is_prefix_of("bearer "@ + rest) {
        assert("Bearer "@[0] == ("bearer "@ + rest).subrange(0, 7)[0]);
    }
}

/// A header that presents a token in either spelling of the scheme gives the
/// token without white space around it, and none where nothing is left.
pub proof fn either_scheme_presents_a_token(rest: Seq<char>)
    requires
        sendable(rest),
    ensures
        ({
            let token = if trimmed(rest).len() == 0 {
                None
            } else {
                Some(trimmed(rest))
            };
            &&& bearer_token(Some(text_bytes("Bearer "@ + rest))) == token
            &&& bearer_token(Some(text_bytes("bearer "@ + rest))) == token
        }),
{
    reveal_strlit("Bearer ");
    reveal_strlit("bearer ");
    assert(sendable("Bearer "@ + rest));
    assert(sendable("bearer "@ + rest));
    lemma_sent("Bearer "@ + rest);
    lemma_sent("bearer "@ + rest);
    crate::text::a_prefix_and_its_rest_make_the_text("Bearer "@ + rest, "Bearer "@, rest);
    crate::text::a_prefix_and_its_rest_make_the_text("bearer "@ + rest, "bearer "@, rest);
    lemma_schemes_differ(rest);
}

/// A token comes only from a header of text that has one of the two schemes in
/// front of it.
pub proof fn tokens_come_from_a_scheme(bytes: Seq<u8>)
    ensures
        bearer_token(None) is None,
        bearer_token(Some(bytes)) matches Some(token) ==> {
            &&& forall|i: int|
                0 <= i < bytes.len() ==> 32 <= #[trigger] bytes[i] <= 126 || bytes[i] == 9
            &&& exists|rest: Seq<char>|
                {
                    &&& token == #[trigger] trimmed(rest)
                    &&& {
                        ||| Seq::new(bytes.len(), |i: int| bytes[i] as char) == "Bearer "@ + rest
                        ||| Seq::new(bytes.len(), |i: int| bytes[i] as char) == "bearer "@ + rest
                    }
                }
            &&& token.len() > 0
        },
{
    if bearer_token(Some(bytes)) is Some {
        let value = header_text_view(bytes)->0;
        let rest = after_scheme(value)->0;
        crate::text::a_prefix_and_its_rest_make_the_text(value, "Bearer "@, rest);
        crate::text::a_prefix_and_its_rest_make_the_text(value, "bearer "@, rest);
        assert(value =~= Seq::new(bytes.len(), |i: int| bytes[i] as char));
        assert(bearer_token(Some(bytes))->0 == trimmed(rest));
    }
}

/// The token of a request is that of its Authorization header.
pub proof fn a_request_presents_what_its_header_holds(
    authorization: Option<&[u8]>,
    token: Option<String>,
)
    requires
        call_ensures(extract_bearer, (authorization,), token),
    ensures
        authorization is None ==> token is None,
        authorization matches Some(bytes) ==> match token {
            Some(token) => bearer_token(Some(bytes@)) == Some(token@),
            None => bearer_token(Some(bytes@)) is None,
        },
{
}

/// A request asks for an event stream exactly where its Accept header is text
/// with the event-stream type somewhere in it.
pub proof fn event_streams_are_asked_for_by_type(
    before: Seq<char>,
    after: Seq<char>,
    bytes: Seq<u8>,
)
    requires
        sendable(before),
        sendable(after),
    ensures
        accepts_events(Some(text_bytes(before + "text/event-stream"@ + after))),
        !accepts_events(None),
        accepts_events(Some(bytes)) ==> {
            &&& forall|i: int|
                0 <= i < bytes.len() ==> 32 <= #[trigger] bytes[i] <= 126 || bytes[i] == 9
            &&& exists|a: Seq<char>, b: Seq<char>|
                Seq::new(bytes.len(), |i: int| bytes[i] as char) == #[trigger] (a
                    + "text/event-stream"@ + b)
        },
{
    reveal_strlit("text/event-stream");
    let s = before + "text/event-stream"@ + after;
    assert(sendable(s));
    lemma_sent(s);
    crate::text::an_infix_is_a_part(s, "text/event-stream"@);
    if accepts_events(Some(bytes)) {
        let value = header_text_view(bytes)->0;
        assert(value =~= Seq::new(bytes.len(), |i: int| bytes[i] as char));
        crate::text::an_infix_is_a_part(value, "text/event-stream"@);
    }
}

/// The header that presents a token is the scheme and the token, and a request
/// that carries it presents that token.
pub proof fn a_presented_token_is_received(
    token: &str,
    header: String,
    bytes: &[u8],
    received: Option<String>,
)
    requires
        call_ensures(bearer_header, (token,), header),
        presentable(token@),
        bytes@ == text_bytes(header@),
        call_ensures(extract_bearer, (Some(bytes),), received),
    ensures
        header@ == "Bearer "@ + token@,
        received matches Some(received) && received@ == token@,
{
    a_bearer_header_gives_back_its_token(token@);
}

} // verus!
