//! Proxy between line-based standard streams and the shared HTTP server.

use crate::text::{chars_of, is_blank, join, one_line, trimmed};
use vstd::prelude::*;

verus! {

/// Whether an input line is left out: one without content is.
pub fn skips_line(line: &str) -> (r: bool)
    ensures
        r == (trimmed(line@).len() == 0),
{
    is_blank(line)
}

/// An HTTP status that says a request succeeded.
pub open spec fn success_status(status: u16) -> bool {
    200 <= status < 300
}

/// A text as a line: with one line end more, unless it has one.
pub open spec fn as_line(s: Seq<char>) -> Seq<char> {
    if s.len() > 0 && s.last() == '\n' {
        s
    } else {
        s.push('\n')
    }
}

/// What the proxy does with an answer: a failure without a body ends it, any
/// other body is written out as a line.
pub open spec fn relay(
    status: u16,
    status_text: Seq<char>,
    body: Seq<char>,
) -> Result<Seq<char>, Seq<char>> {
    if !success_status(status) && trimmed(body).len() == 0 {
        Err("shared MCP HTTP proxy received HTTP "@ + status_text)
    } else {
        Ok(as_line(body))
    }
}

/// The text to write for an answer, or the error that ends the proxy.
/// `status_text` is how the status prints.
pub fn relay_answer(status: u16, status_text: &str, body: &str) -> (r: Result<String, String>)
    ensures
        match r {
            Ok(line) => relay(status, status_text@, body@) == Ok::<Seq<char>, Seq<char>>(line@),
            Err(message) => relay(status, status_text@, body@) == Err::<Seq<char>, Seq<char>>(
                message@,
            ),
        },
{
    let success: bool = 200 <= status && status < 300;
    if !success && is_blank(body) {
        return Err(join("shared MCP HTTP proxy received HTTP ", status_text));
    }
    let chars = chars_of(body);
    let mut line = body.to_owned();
    if chars.len() == 0 || chars[chars.len() - 1] != '\n' {
        line.push('\n');
    }
    Ok(line)
}

/// The answer of the shared server to a posted line.
#[derive(Debug)]
pub struct ProxyAnswer {
    pub status: u16,
    /// How the status prints.
    pub status_text: String,
    pub body: String,
}

/// What an answer is.
pub struct AnswerView {
    pub status: u16,
    pub status_text: Seq<char>,
    pub body: Seq<char>,
}

impl View for ProxyAnswer {
    type V = AnswerView;

    open spec fn view(&self) -> AnswerView {
        AnswerView { status: self.status, status_text: self.status_text@, body: self.body@ }
    }
}

/// What came of the last thing that the proxy did.
#[derive(Debug)]
pub enum ProxyEvent {
    /// A line was read.
    Line(String),
    /// The input has ended.
    Closed,
    /// A posted line was answered.
    Answer(ProxyAnswer),
    /// A text was written out.
    Written,
}

/// What an event is.
pub enum EventView {
    Line(Seq<char>),
    Closed,
    Answer(AnswerView),
    Written,
}

impl View for ProxyEvent {
    type V = EventView;

    open spec fn view(&self) -> EventView {
        match self {
            ProxyEvent::Line(line) => EventView::Line(line@),
            ProxyEvent::Closed => EventView::Closed,
            ProxyEvent::Answer(answer) => EventView::Answer(answer@),
            ProxyEvent::Written => EventView::Written,
        }
    }
}

/// What the proxy does next.
#[derive(Debug)]
pub enum ProxyAction {
    /// Read the next line.
    Read,
    /// Post this body to the shared server.
    Post(String),
    /// Write this text out.
    Write(String),
    /// The proxy is done.
    Finish,
    /// The proxy ends with this error.
    Fail(String),
}

/// What an action is.
pub enum ActionView {
    Read,
    Post(Seq<char>),
    Write(Seq<char>),
    Finish,
    Fail(Seq<char>),
}

impl View for ProxyAction {
    type V = ActionView;

    open spec fn view(&self) -> ActionView {
        match self {
            ProxyAction::Read => ActionView::Read,
            ProxyAction::Post(body) => ActionView::Post(body@),
            ProxyAction::Write(text) => ActionView::Write(text@),
            ProxyAction::Finish => ActionView::Finish,
            ProxyAction::Fail(message) => ActionView::Fail(message@),
        }
    }
}

/// What the proxy does after an event: a line with content is posted as it is,
/// an answer is relayed, and then the next line is read until there is none.
pub open spec fn action_after(event: EventView) -> ActionView {
    match event {
        EventView::Line(line) => if trimmed(line).len() == 0 {
            ActionView::Read
        } else {
            ActionView::Post(line)
        },
        EventView::Closed => ActionView::Finish,
        EventView::Answer(answer) => match relay(answer.status, answer.status_text, answer.body) {
            Ok(text) => ActionView::Write(text),
            Err(message) => ActionView::Fail(message),
        },
        EventView::Written => ActionView::Read,
    }
}

/// Decides what the proxy does after an event.
pub fn next_action(event: ProxyEvent) -> (r: ProxyAction)
    ensures
        r@ == action_after(event@),
{
    match event {
        ProxyEvent::Line(line) => if skips_line(line.as_str()) {
            ProxyAction::Read
        } else {
            ProxyAction::Post(line)
        },
        ProxyEvent::Closed => ProxyAction::Finish,
        ProxyEvent::Answer(answer) => match relay_answer(
            answer.status,
            answer.status_text.as_str(),
            answer.body.as_str(),
        ) {
            Ok(text) => ProxyAction::Write(text),
            Err(message) => ProxyAction::Fail(message),
        },
        ProxyEvent::Written => ProxyAction::Read,
    }
}

/// An input line, and what the shared server answers if it is posted.
pub struct Exchange {
    pub line: Seq<char>,
    pub answer: AnswerView,
}

/// What a run of the proxy comes to.
pub struct ProxyRun {
    /// The bodies that were posted, the first one first.
    pub posted: Seq<Seq<char>>,
    /// All that was written out.
    pub output: Seq<char>,
    /// The error that ended the run, if one did.
    pub failure: Option<Seq<char>>,
}

impl ProxyRun {
    /// A run that has read nothing yet.
    pub open spec fn start() -> ProxyRun {
        ProxyRun { posted: Seq::empty(), output: Seq::empty(), failure: None }
    }

    /// The run once it has dealt with one more line; nothing is read after a
    /// failure.
    pub open spec fn after(self, exchange: Exchange) -> ProxyRun {
        if self.failure is Some {
            self
        } else {
            match action_after(EventView::Line(exchange.line)) {
                ActionView::Post(body) => match action_after(EventView::Answer(exchange.answer)) {
                    ActionView::Write(text) => ProxyRun {
                        posted: self.posted.push(body),
                        output: self.output + text,
                        failure: None,
                    },
                    ActionView::Fail(message) => ProxyRun {
                        posted: self.posted.push(body),
                        output: self.output,
                        failure: Some(message),
                    },
                    _ => self,
                },
                _ => self,
            }
        }
    }
}

/// The run of the proxy over an input.
pub open spec fn proxied(exchanges: Seq<Exchange>) -> ProxyRun
    decreases exchanges.len(),
{
    if exchanges.len() == 0 {
        ProxyRun::start()
    } else {
        proxied(exchanges.drop_last()).after(exchanges.last())
    }
}

/// The exchanges whose line has content, in their order.
pub open spec fn with_content(exchanges: Seq<Exchange>) -> Seq<Exchange>
    decreases exchanges.len(),
{
    if exchanges.len() == 0 {
        Seq::empty()
    } else if trimmed(exchanges.last().line).len() == 0 {
        with_content(exchanges.drop_last())
    } else {
        with_content(exchanges.drop_last()).push(exchanges.last())
    }
}

/// What the answer of an exchange is relayed as.
pub open spec fn relayed(exchange: Exchange) -> Result<Seq<char>, Seq<char>> {
    relay(exchange.answer.status, exchange.answer.status_text, exchange.answer.body)
}

/// The relayed bodies of exchanges that did not fail, one behind the other.
pub open spec fn relayed_bodies(exchanges: Seq<Exchange>) -> Seq<char>
    decreases exchanges.len(),
{
    if exchanges.len() == 0 {
        Seq::empty()
    } else {
        relayed_bodies(exchanges.drop_last()) + relayed(exchanges.last())->Ok_0
    }
}

/// How a whole run of the proxy goes. The bodies that are posted are the lines
/// with content, in their order, up to the first whose answer fails. What is
/// written out are the relayed bodies of those before it, in the same order.
/// Without a failure that is every line; with one, the run ends in its error
/// and the output before it stands.
pub proof fn a_run_relays_line_by_line(exchanges: Seq<Exchange>)
    ensures
        ({
            let run = proxied(exchanges);
            let lines = with_content(exchanges);
            let n = run.posted.len() as int;
            let good = if run.failure is Some {
                n - 1
            } else {
                n
            };
            &&& n <= lines.len()
            &&& forall|i: int| 0 <= i < n ==> #[trigger] run.posted[i] == lines[i].line
            &&& 0 <= good
            &&& forall|i: int| 0 <= i < good ==> relayed(#[trigger] lines[i]) is Ok
            &&& run.output == relayed_bodies(lines.take(good))
            &&& match run.failure {
                None => n == lines.len(),
                Some(message) => relayed(lines[good]) == Err::<Seq<char>, Seq<char>>(message),
            }
        }),
    decreases exchanges.len(),
{
    let lines = with_content(exchanges);
    if exchanges.len() > 0 {
        let front = exchanges.drop_last();
        a_run_relays_line_by_line(front);
        let before = proxied(front);
        let earlier = with_content(front);
        let n = before.posted.len() as int;
        if before.failure is Some {
            assert(lines.take(n - 1) =~= earlier.take(n - 1));
            assert forall|i: int| 0 <= i < n - 1 implies relayed(#[trigger] lines[i]) is Ok by {
                assert(earlier[i] == lines[i]);
            }
        } else if trimmed(exchanges.last().line).len() > 0 {
            assert(earlier.take(n) =~= earlier);
            assert(lines.take(n) =~= earlier);
            assert(lines.take(n + 1) =~= lines);
            assert(lines.drop_last() =~= earlier);
            assert forall|i: int| 0 <= i < n implies relayed(#[trigger] lines[i]) is Ok by {
                assert(earlier[i] == lines[i]);
            }
        }
    } else {
        assert(lines.take(0) =~= Seq::empty());
    }
}

/// Once a relay has failed, nothing more is posted or written, whatever comes.
pub proof fn a_failed_run_stays_as_it_is(exchanges: Seq<Exchange>, more: Seq<Exchange>)
    requires
        proxied(exchanges).failure is Some,
    ensures
        proxied(exchanges + more) == proxied(exchanges),
    decreases more.len(),
{
    if more.len() > 0 {
        a_failed_run_stays_as_it_is(exchanges, more.drop_last());
        assert((exchanges + more).drop_last() =~= exchanges + more.drop_last());
    } else {
        assert(exchanges + more =~= exchanges);
    }
}

/// A body of one line, such as every JSON answer has, is written as one line:
/// its only line end is the last character.
pub proof fn one_line_bodies_stay_one_line(
    status: u16,
    status_text: Seq<char>,
    body: Seq<char>,
    at: int,
)
    requires
        one_line(body),
    ensures
        relay(status, status_text, body) matches Ok(line) ==> line == body.push('\n') && (0 <= at
            < line.len() - 1 ==> line[at] != '\n'),
{
}

/// What the proxy writes ends in a line end and starts with the body.
pub proof fn relayed_bodies_are_lines(status: u16, status_text: Seq<char>, body: Seq<char>)
    ensures
        relay(status, status_text, body) matches Ok(line) ==> {
            &&& line.len() > 0
            &&& line.last() == '\n'
            &&& body.is_prefix_of(line)
            &&& line.len() <= body.len() + 1
        },
        success_status(status) ==> relay(status, status_text, body) is Ok,
        trimmed(body).len() > 0 ==> relay(status, status_text, body) is Ok,
{
    assert(body =~= as_line(body).subrange(0, body.len() as int));
}

/// An answer is passed on as it is, with a line end where it has none; it ends
/// the proxy exactly where its status is no success and its body is blank.
pub proof fn answers_are_passed_on_as_lines(
    status: u16,
    status_text: &str,
    body: &str,
    r: Result<String, String>,
)
    requires
        call_ensures(relay_answer, (status, status_text, body), r),
    ensures
        r is Err <==> (status < 200 || status > 299) && forall|i: int|
            0 <= i < body@.len() ==> crate::text::white_space(#[trigger] body@[i]),
        r matches Err(message) ==> message@ == "shared MCP HTTP proxy received HTTP "@
            + status_text@,
        r matches Ok(line) ==> {
            &&& body@.len() > 0 && body@.last() == '\n' ==> line@ == body@
            &&& body@.len() == 0 || body@.last() != '\n' ==> line@ == body@.push('\n')
        },
{
    crate::text::blank_texts_are_white_space(body@);
}

/// Line for line: one of white space is left out, every other is posted as it
/// is, its answer is written out or ends the proxy, and after it the next line
/// is read, until the input ends.
pub proof fn the_proxy_posts_and_relays(event: ProxyEvent, action: ProxyAction)
    requires
        call_ensures(next_action, (event,), action),
    ensures
        event matches ProxyEvent::Line(line) ==> {
            if forall|i: int|
                0 <= i < line@.len() ==> crate::text::white_space(#[trigger] line@[i]) {
                action is Read
            } else {
                action matches ProxyAction::Post(body) && body@ == line@
            }
        },
        event is Closed ==> action is Finish,
        event is Written ==> action is Read,
        event matches ProxyEvent::Answer(answer) ==> {
            if (answer.status < 200 || answer.status > 299) && forall|i: int|
                0 <= i < answer.body@.len() ==> crate::text::white_space(
                    #[trigger] answer.body@[i],
                ) {
                action matches ProxyAction::Fail(message) && message@
                    == "shared MCP HTTP proxy received HTTP "@ + answer.status_text@
            } else if answer.body@.len() > 0 && answer.body@.last() == '\n' {
                action matches ProxyAction::Write(text) && text@ == answer.body@
            } else {
                action matches ProxyAction::Write(text) && text@ == answer.body@.push('\n')
            }
        },
{
    match event {
        ProxyEvent::Line(line) => crate::text::blank_texts_are_white_space(line@),
        ProxyEvent::Answer(answer) => crate::text::blank_texts_are_white_space(answer.body@),
        _ => {},
    }
}

/// A line is left out exactly where all of it is white space.
pub proof fn lines_of_white_space_are_left_out(line: &str, r: bool)
    requires
        call_ensures(skips_line, (line,), r),
    ensures
        r <==> forall|i: int|
            0 <= i < line@.len() ==> crate::text::white_space(#[trigger] line@[i]),
{
    crate::text::blank_texts_are_white_space(line@);
}

} // verus!
