//! List-changed notifications and their fan-out.

use crate::json::{json_text, member, only_members, Json, JsonView};
use crate::text::{one_line, same_text};
use vstd::prelude::*;
use vstd::string::StringExecFns;

verus! {

/// Which MCP list changed. The notification carries no caller-private data.
#[derive(Clone, Copy, Debug, PartialEq, Eq, Structural)]
pub enum McpListKind {
    /// Tool list changed.
    Tools,
    /// Prompt list changed.
    Prompts,
    /// Resource list changed.
    Resources,
}

/// The kind that a word names.
pub open spec fn kind_named(kind: Seq<char>) -> Option<McpListKind> {
    if kind == "tools"@ {
        Some(McpListKind::Tools)
    } else if kind == "prompts"@ {
        Some(McpListKind::Prompts)
    } else if kind == "resources"@ {
        Some(McpListKind::Resources)
    } else {
        None
    }
}

/// The notification method of a kind.
pub open spec fn method_of(kind: McpListKind) -> Seq<char> {
    match kind {
        McpListKind::Tools => "notifications/tools/list_changed"@,
        McpListKind::Prompts => "notifications/prompts/list_changed"@,
        McpListKind::Resources => "notifications/resources/list_changed"@,
    }
}

/// The message of a notification: the kind's method and nothing else.
pub open spec fn notification(kind: McpListKind) -> JsonView {
    JsonView::Object(
        map!["jsonrpc"@ => JsonView::Text("2.0"@), "method"@ => JsonView::Text(method_of(kind))],
    )
}

/// The event-stream text of a notification.
pub open spec fn notification_event(kind: McpListKind) -> Seq<char> {
    "event: message\ndata: "@ + json_text(notification(kind)) + "\n\n"@
}

impl McpListKind {
    /// Parses a Lua kind string.
    #[must_use]
    pub fn parse(kind: &str) -> (r: Option<McpListKind>)
        ensures
            r == kind_named(kind@),
    {
        if same_text(kind, "tools") {
            Some(McpListKind::Tools)
        } else if same_text(kind, "prompts") {
            Some(McpListKind::Prompts)
        } else if same_text(kind, "resources") {
            Some(McpListKind::Resources)
        } else {
            None
        }
    }

    /// The notification method of this kind.
    pub fn notification_method(self) -> (r: &'static str)
        ensures
            r@ == method_of(self),
    {
        match self {
            McpListKind::Tools => "notifications/tools/list_changed",
            McpListKind::Prompts => "notifications/prompts/list_changed",
            McpListKind::Resources => "notifications/resources/list_changed",
        }
    }
}

/// The event-stream text that tells of a changed list.
pub fn sse_notification(kind: McpListKind) -> (r: String)
    ensures
        r@ == notification_event(kind),
        one_line(json_text(notification(kind))),
{
    let message = Json::empty_object().with("jsonrpc", Json::text("2.0")).with(
        "method",
        Json::text(kind.notification_method()),
    );
    let mut out = "event: message\ndata: ".to_owned();
    out.append(message.to_text().as_str());
    out.append("\n\n");
    out
}

/// The subscribers whose flag is set, in their order.
pub open spec fn retained<S>(subs: Seq<S>, flags: Seq<bool>) -> Seq<S>
    decreases subs.len(),
{
    if subs.len() == 0 {
        Seq::empty()
    } else if flags[subs.len() - 1] {
        retained(subs.drop_last(), flags).push(subs.last())
    } else {
        retained(subs.drop_last(), flags)
    }
}

/// Where a subscriber whose flag is set stands among those that are retained.
pub open spec fn place<S>(subs: Seq<S>, flags: Seq<bool>, i: int) -> int {
    retained(subs.take(i), flags).len() as int
}

/// Keeps the subscribers whose flag is set, in their order.
pub fn retain_flagged<S>(subs: Vec<S>, flags: &Vec<bool>) -> (r: Vec<S>)
    requires
        flags@.len() == subs@.len(),
    ensures
        r@ == retained(subs@, flags@),
{
    let ghost all = subs@;
    let count: usize = flags.len();
    let mut kept: Vec<S> = Vec::new();
    let mut i: usize = 0;
    for sub in it: subs
        invariant
            it.seq() == all,
            i == it.index(),
            i <= all.len(),
            count == all.len(),
            flags@.len() == count,
            kept@ == retained(all.take(i as int), flags@),
    {
        assert(all.take(i + 1).drop_last() =~= all.take(i as int));
        if flags[i] {
            kept.push(sub);
        }
        i += 1;
    }
    assert(all.take(all.len() as int) =~= all);
    kept
}

/// A subscriber, and the notifications that it is still to be sent.
#[derive(Debug)]
struct Subscriber<S> {
    handle: S,
    pending: Vec<McpListKind>,
}

/// What a subscriber is.
pub struct SubscriberView<S> {
    /// The way to reach it.
    pub handle: S,
    /// The notifications that it is still to be sent, the oldest first.
    pub pending: Seq<McpListKind>,
}

impl<S> View for Subscriber<S> {
    type V = SubscriberView<S>;

    closed spec fn view(&self) -> SubscriberView<S> {
        SubscriberView { handle: self.handle, pending: self.pending@ }
    }
}

/// The subscribers once each was told of a changed list, one time, behind what
/// it was told before.
pub open spec fn notified<S>(subs: Seq<SubscriberView<S>>, kind: McpListKind) -> Seq<
    SubscriberView<S>,
> {
    Seq::new(
        subs.len(),
        |i: int| SubscriberView { handle: subs[i].handle, pending: subs[i].pending.push(kind) },
    )
}

/// The subscribers with nothing left to be sent.
pub open spec fn drained<S>(subs: Seq<SubscriberView<S>>) -> Seq<SubscriberView<S>> {
    Seq::new(
        subs.len(),
        |i: int| SubscriberView { handle: subs[i].handle, pending: Seq::empty() },
    )
}

/// Fan-out of event-stream notifications to subscribers.
///
/// Notifications name a list kind only. They never carry a caller's tools,
/// messages or identity. They wait here, in one queue for each subscriber,
/// until they are taken to be sent.
#[derive(Debug)]
pub struct McpHttpFanout<S> {
    subscribers: Vec<Subscriber<S>>,
}

impl<S> View for McpHttpFanout<S> {
    type V = Seq<SubscriberView<S>>;

    closed spec fn view(&self) -> Seq<SubscriberView<S>> {
        views(self.subscribers@)
    }
}

spec fn views<S>(subs: Seq<Subscriber<S>>) -> Seq<SubscriberView<S>> {
    subs.map_values(|s: Subscriber<S>| s@)
}

impl<S> Default for McpHttpFanout<S> {
    fn default() -> (r: Self)
        ensures
            r@ == Seq::<SubscriberView<S>>::empty(),
    {
        McpHttpFanout::new()
    }
}

impl<S> McpHttpFanout<S> {
    /// Creates an empty fan-out.
    #[must_use]
    pub fn new() -> (r: McpHttpFanout<S>)
        ensures
            r@ == Seq::<SubscriberView<S>>::empty(),
    {
        let r = McpHttpFanout { subscribers: Vec::new() };
        assert(r@ =~= Seq::empty());
        r
    }

    /// Drops the subscribers that `is_closed` says are gone.
    fn drop_closed<F: Fn(&S) -> bool>(&mut self, is_closed: F) -> (open: Ghost<Seq<bool>>)
        requires
            forall|i: int|
                0 <= i < old(self)@.len() ==> call_requires(
                    is_closed,
                    (&(#[trigger] old(self)@[i]).handle,),
                ),
        ensures
            open@.len() == old(self)@.len(),
            forall|i: int|
                0 <= i < old(self)@.len() ==> call_ensures(
                    is_closed,
                    (&old(self)@[i].handle,),
                    !#[trigger] open@[i],
                ),
            final(self)@ == retained(old(self)@, open@),
            (forall|i: int, closed: bool|
                0 <= i < old(self)@.len() && #[trigger] call_ensures(
                    is_closed,
                    (&old(self)@[i].handle,),
                    closed,
                ) ==> !closed) ==> final(self)@ == old(self)@,
    {
        let ghost before = self@;
        let ghost subs = self.subscribers@;
        let mut open: Vec<bool> = Vec::new();
        let mut i: usize = 0;
        while i < self.subscribers.len()
            invariant
                i <= subs.len(),
                self.subscribers@ == subs,
                before == views(subs),
                open@.len() == i,
                forall|j: int|
                    0 <= j < before.len() ==> call_requires(
                        is_closed,
                        (&(#[trigger] before[j]).handle,),
                    ),
                forall|j: int|
                    0 <= j < i ==> call_ensures(
                        is_closed,
                        (&before[j].handle,),
                        !#[trigger] open@[j],
                    ),
            decreases subs.len() - i,
        {
            assert(before[i as int] == subs[i as int]@);
            let closed: bool = is_closed(&self.subscribers[i].handle);
            open.push(!closed);
            i += 1;
        }
        let mut subscribers: Vec<Subscriber<S>> = Vec::new();
        std::mem::swap(&mut subscribers, &mut self.subscribers);
        self.subscribers = retain_flagged(subscribers, &open);
        proof {
            lemma_retained_views(subs, open@);
            if forall|j: int| 0 <= j < before.len() ==> open@[j] {
                lemma_all_retained(before, open@);
            }
        }
        Ghost(open@)
    }

    /// Adds a subscriber, and drops those that `is_closed` says are gone. The
    /// new one is told of later changes alone.
    pub fn subscribe<F: Fn(&S) -> bool>(&mut self, is_closed: F, subscriber: S)
        requires
            forall|i: int|
                0 <= i < old(self)@.len() ==> call_requires(
                    is_closed,
                    (&(#[trigger] old(self)@[i]).handle,),
                ),
        ensures
            exists|open: Seq<bool>|
                {
                    &&& open.len() == old(self)@.len()
                    &&& forall|i: int|
                        0 <= i < old(self)@.len() ==> call_ensures(
                            is_closed,
                            (&old(self)@[i].handle,),
                            !#[trigger] open[i],
                        )
                    &&& final(self)@ == (#[trigger] retained(old(self)@, open)).push(
                        SubscriberView { handle: subscriber, pending: Seq::empty() },
                    )
                },
            (forall|i: int, closed: bool|
                0 <= i < old(self)@.len() && #[trigger] call_ensures(
                    is_closed,
                    (&old(self)@[i].handle,),
                    closed,
                ) ==> !closed) ==> final(self)@ == old(self)@.push(
                SubscriberView { handle: subscriber, pending: Seq::empty() },
            ),
    {
        let open = self.drop_closed(is_closed);
        let ghost kept = self@;
        self.subscribers.push(Subscriber { handle: subscriber, pending: Vec::new() });
        assert(self@ =~= kept.push(SubscriberView { handle: subscriber, pending: Seq::empty() }));
        assert(kept == retained(old(self)@, open@));
    }

    /// Tells every subscriber that a list changed, and drops those that
    /// `is_closed` says are gone.
    pub fn notify<F: Fn(&S) -> bool>(&mut self, kind: McpListKind, is_closed: F)
        requires
            forall|i: int|
                0 <= i < old(self)@.len() ==> call_requires(
                    is_closed,
                    (&(#[trigger] old(self)@[i]).handle,),
                ),
        ensures
            exists|open: Seq<bool>|
                {
                    &&& open.len() == old(self)@.len()
                    &&& forall|i: int|
                        0 <= i < old(self)@.len() ==> call_ensures(
                            is_closed,
                            (&old(self)@[i].handle,),
                            !#[trigger] open[i],
                        )
                    &&& final(self)@ == notified(#[trigger] retained(old(self)@, open), kind)
                },
            (forall|i: int, closed: bool|
                0 <= i < old(self)@.len() && #[trigger] call_ensures(
                    is_closed,
                    (&old(self)@[i].handle,),
                    closed,
                ) ==> !closed) ==> final(self)@ == notified(old(self)@, kind),
    {
        let open = self.drop_closed(is_closed);
        let ghost kept = self@;
        let mut subscribers: Vec<Subscriber<S>> = Vec::new();
        std::mem::swap(&mut subscribers, &mut self.subscribers);
        let ghost subs = subscribers@;
        let mut told: Vec<Subscriber<S>> = Vec::new();
        for sub in it: subscribers
            invariant
                it.seq() == subs,
                told@.len() == it.index(),
                forall|j: int|
                    0 <= j < told@.len() ==> (#[trigger] told@[j])@ == (SubscriberView {
                        handle: subs[j]@.handle,
                        pending: subs[j]@.pending.push(kind),
                    }),
        {
            let Subscriber { handle, mut pending } = sub;
            pending.push(kind);
            told.push(Subscriber { handle, pending });
        }
        self.subscribers = told;
        assert(self@ =~= notified(kept, kind));
        assert(kept == retained(old(self)@, open@));
    }

    /// Takes what is to be sent: one queue for each subscriber, in their order.
    pub fn take_outbox(&mut self) -> (r: Vec<Vec<McpListKind>>)
        ensures
            r@.len() == old(self)@.len(),
            forall|i: int| 0 <= i < r@.len() ==> (#[trigger] r@[i])@ == old(self)@[i].pending,
            final(self)@ == drained(old(self)@),
    {
        let mut subscribers: Vec<Subscriber<S>> = Vec::new();
        std::mem::swap(&mut subscribers, &mut self.subscribers);
        let ghost subs = subscribers@;
        let mut rest: Vec<Subscriber<S>> = Vec::new();
        let mut outbox: Vec<Vec<McpListKind>> = Vec::new();
        for sub in it: subscribers
            invariant
                it.seq() == subs,
                rest@.len() == it.index(),
                outbox@.len() == it.index(),
                forall|j: int|
                    0 <= j < outbox@.len() ==> (#[trigger] outbox@[j])@ == subs[j]@.pending,
                forall|j: int|
                    0 <= j < rest@.len() ==> (#[trigger] rest@[j])@ == (SubscriberView {
                        handle: subs[j]@.handle,
                        pending: Seq::empty(),
                    }),
        {
            outbox.push(sub.pending);
            rest.push(Subscriber { handle: sub.handle, pending: Vec::new() });
        }
        self.subscribers = rest;
        assert(self@ =~= drained(old(self)@));
        outbox
    }

    /// The way to reach the subscriber at a place.
    pub fn subscriber(&self, at: usize) -> (r: Option<&S>)
        ensures
            match r {
                Some(handle) => at < self@.len() && *handle == self@[at as int].handle,
                None => at >= self@.len(),
            },
    {
        if at < self.subscribers.len() {
            Some(&self.subscribers[at].handle)
        } else {
            None
        }
    }

    /// How many subscribers there are.
    pub fn subscriber_count(&self) -> (r: usize)
        ensures
            r == self@.len(),
    {
        self.subscribers.len()
    }
}

proof fn lemma_retained_views<S>(subs: Seq<Subscriber<S>>, flags: Seq<bool>)
    ensures
        views(retained(subs, flags)) == retained(views(subs), flags),
    decreases subs.len(),
{
    if subs.len() > 0 {
        lemma_retained_views(subs.drop_last(), flags);
        assert(views(subs).drop_last() =~= views(subs.drop_last()));
        assert(views(retained(subs, flags)) =~= retained(views(subs), flags));
    } else {
        assert(views(retained(subs, flags)) =~= retained(views(subs), flags));
    }
}

/// A notification has two members, the protocol version and the method of its
/// kind: nothing of any caller.
pub proof fn a_notification_names_its_kind_only(kind: McpListKind, name: Seq<char>)
    ensures
        crate::json::text_member(notification(kind), "jsonrpc"@) == Some("2.0"@),
        crate::json::text_member(notification(kind), "method"@) == Some(method_of(kind)),
        name != "jsonrpc"@ && name != "method"@ ==> crate::json::member(notification(kind), name)
            is None,
{
    reveal_strlit("jsonrpc");
    reveal_strlit("method");
    assert("jsonrpc"@.len() != "method"@.len());
}

/// Notifications of different kinds have different methods.
pub proof fn notification_methods_differ(a: McpListKind, b: McpListKind)
    requires
        method_of(a) == method_of(b),
    ensures
        a == b,
{
    reveal_strlit("notifications/tools/list_changed");
    reveal_strlit("notifications/prompts/list_changed");
    reveal_strlit("notifications/resources/list_changed");
    assert(method_of(McpListKind::Tools).len() != method_of(McpListKind::Prompts).len());
    assert(method_of(McpListKind::Tools).len() != method_of(McpListKind::Resources).len());
    assert(method_of(McpListKind::Prompts).len() != method_of(McpListKind::Resources).len());
}

/// A subscriber that is still open stays, and is told of a change once, behind
/// what it was told before, whoever else is dropped.
pub proof fn an_open_subscriber_is_told_once<S>(
    subs: Seq<SubscriberView<S>>,
    open: Seq<bool>,
    kind: McpListKind,
    i: int,
)
    requires
        open.len() == subs.len(),
        0 <= i < subs.len(),
        open[i],
    ensures
        ({
            let next = notified(retained(subs, open), kind);
            let at = place(subs, open, i);
            &&& 0 <= at < next.len()
            &&& next[at].handle == subs[i].handle
            &&& next[at].pending == subs[i].pending.push(kind)
        }),
{
    lemma_place(subs, open, i);
}

/// Whoever is told of a change subscribed before it and is still open; without
/// subscribers nobody is told.
pub proof fn only_open_subscribers_are_told<S>(
    subs: Seq<SubscriberView<S>>,
    open: Seq<bool>,
    kind: McpListKind,
    k: int,
)
    requires
        open.len() == subs.len(),
        0 <= k < notified(retained(subs, open), kind).len(),
    ensures
        exists|i: int| 0 <= i < subs.len() && #[trigger] open[i] && place(subs, open, i) == k,
        subs.len() > 0,
{
    lemma_source(subs, open, k);
}

/// What waits for a subscriber is handed out in full, and once.
pub proof fn a_notification_is_handed_out_once<S>(subs: Seq<SubscriberView<S>>, kind: McpListKind)
    ensures
        notified(drained(subs), kind).len() == subs.len(),
        forall|i: int|
            0 <= i < subs.len() ==> (#[trigger] notified(drained(subs), kind)[i]).pending
                == seq![kind],
        drained(notified(subs, kind)) == drained(subs),
        drained(drained(subs)) == drained(subs),
{
    assert forall|i: int| 0 <= i < subs.len() implies (#[trigger] notified(
        drained(subs),
        kind,
    )[i]).pending == seq![kind] by {
        assert(notified(drained(subs), kind)[i].pending =~= seq![kind]);
    }
    assert(drained(notified(subs, kind)) =~= drained(subs));
    assert(drained(drained(subs)) =~= drained(subs));
}

proof fn lemma_all_retained<S>(subs: Seq<S>, flags: Seq<bool>)
    requires
        forall|i: int| 0 <= i < subs.len() ==> flags[i],
    ensures
        retained(subs, flags) == subs,
    decreases subs.len(),
{
    if subs.len() > 0 {
        lemma_all_retained(subs.drop_last(), flags);
        assert(subs.drop_last().push(subs.last()) =~= subs);
    } else {
        assert(subs =~= Seq::empty());
    }
}

proof fn lemma_place<S>(subs: Seq<S>, flags: Seq<bool>, i: int)
    requires
        0 <= i < subs.len() <= flags.len(),
        flags[i],
    ensures
        0 <= place(subs, flags, i) < retained(subs, flags).len(),
        retained(subs, flags)[place(subs, flags, i)] == subs[i],
    decreases subs.len(),
{
    let front = subs.drop_last();
    if i < front.len() {
        lemma_place(front, flags, i);
        assert(front.take(i) =~= subs.take(i));
    } else {
        assert(subs.take(i) =~= front);
    }
}

proof fn lemma_source<S>(subs: Seq<S>, flags: Seq<bool>, k: int)
    requires
        subs.len() <= flags.len(),
        0 <= k < retained(subs, flags).len(),
    ensures
        exists|i: int| 0 <= i < subs.len() && #[trigger] flags[i] && place(subs, flags, i) == k,
    decreases subs.len(),
{
    let front = subs.drop_last();
    let last = subs.len() - 1;
    if k < retained(front, flags).len() {
        lemma_source(front, flags, k);
        let i = choose|i: int|
            0 <= i < front.len() && #[trigger] flags[i] && place(front, flags, i) == k;
        assert(front.take(i) =~= subs.take(i));
        assert(place(subs, flags, i) == k);
    } else {
        assert(subs.take(last) =~= front);
        assert(flags[last] && place(subs, flags, last) == k);
    }
}

/// Three words name a kind, each its own, and no other word does.
pub proof fn three_words_name_a_kind(word: &str, r: Option<McpListKind>)
    requires
        call_ensures(McpListKind::parse, (word,), r),
    ensures
        r == Some(McpListKind::Tools) <==> word@ == "tools"@,
        r == Some(McpListKind::Prompts) <==> word@ == "prompts"@,
        r == Some(McpListKind::Resources) <==> word@ == "resources"@,
{
    reveal_strlit("tools");
    reveal_strlit("prompts");
    reveal_strlit("resources");
    assert("tools"@.len() == 5 && "prompts"@.len() == 7 && "resources"@.len() == 9);
}

/// The notification method of a kind has the word in it that names the kind.
pub proof fn a_method_holds_the_word_of_its_kind(word: Seq<char>, kind: McpListKind)
    requires
        kind_named(word) == Some(kind),
    ensures
        method_of(kind) == "notifications/"@ + word + "/list_changed"@,
{
    reveal_strlit("notifications/");
    reveal_strlit("/list_changed");
    reveal_strlit("tools");
    reveal_strlit("prompts");
    reveal_strlit("resources");
    reveal_strlit("notifications/tools/list_changed");
    reveal_strlit("notifications/prompts/list_changed");
    reveal_strlit("notifications/resources/list_changed");
    assert(method_of(kind) =~= "notifications/"@ + word + "/list_changed"@);
}

/// The event of a changed list is one message event whose data is an object
/// with the protocol version and the method that has the word of that same list
/// in it.
pub proof fn an_event_tells_of_its_own_list(word: &str, kind: McpListKind, text: String)
    requires
        call_ensures(McpListKind::parse, (word,), Some(kind)),
        call_ensures(sse_notification, (kind,), text),
    ensures
        exists|message: JsonView|
            {
                &&& text@ == "event: message\ndata: "@ + #[trigger] json_text(message) + "\n\n"@
                &&& only_members(message, set!["jsonrpc"@, "method"@])
                &&& member(message, "jsonrpc"@) == Some(JsonView::Text("2.0"@))
                &&& member(message, "method"@) == Some(
                    JsonView::Text("notifications/"@ + word@ + "/list_changed"@),
                )
            },
{
    reveal_strlit("jsonrpc");
    reveal_strlit("method");
    assert("jsonrpc"@.len() != "method"@.len());
    a_method_holds_the_word_of_its_kind(word@, kind);
    let message = notification(kind);
    assert(only_members(message, set!["jsonrpc"@, "method"@]));
    assert(text@ == "event: message\ndata: "@ + json_text(message) + "\n\n"@);
}

/// Every kind has a word.
pub proof fn every_kind_has_its_word(kind: McpListKind)
    ensures
        kind_named("tools"@) == Some(McpListKind::Tools),
        kind_named("prompts"@) == Some(McpListKind::Prompts),
        kind_named("resources"@) == Some(McpListKind::Resources),
        exists|word: Seq<char>| #[trigger] kind_named(word) == Some(kind),
{
    reveal_strlit("tools");
    reveal_strlit("prompts");
    reveal_strlit("resources");
    assert("tools"@.len() == 5 && "prompts"@.len() == 7 && "resources"@.len() == 9);
}

/// To hand the waiting notifications out keeps every subscriber, in its place.
pub proof fn handing_out_keeps_the_subscribers<S>(subs: Seq<SubscriberView<S>>, i: int)
    requires
        0 <= i < subs.len(),
    ensures
        drained(subs).len() == subs.len(),
        drained(subs)[i].handle == subs[i].handle,
        drained(subs)[i].pending.len() == 0,
{
}

/// What waits is handed out whole, one queue for each subscriber, and then
/// nothing waits; every subscriber keeps its place.
pub proof fn what_waits_is_handed_out<S>(
    fanout: &mut McpHttpFanout<S>,
    outbox: Vec<Vec<McpListKind>>,
    i: int,
)
    requires
        call_ensures(McpHttpFanout::<S>::take_outbox, (fanout,), outbox),
        0 <= i < old(fanout)@.len(),
    ensures
        outbox@.len() == old(fanout)@.len(),
        outbox@[i]@ == old(fanout)@[i].pending,
        final(fanout)@.len() == old(fanout)@.len(),
        final(fanout)@[i].handle == old(fanout)@[i].handle,
        final(fanout)@[i].pending.len() == 0,
{
}

/// A subscriber that `is_closed` never calls gone is told of a change once,
/// behind what it was told before.
pub proof fn open_subscribers_are_told<S, F: Fn(&S) -> bool>(
    fanout: &mut McpHttpFanout<S>,
    kind: McpListKind,
    is_closed: F,
    i: int,
)
    requires
        call_ensures(McpHttpFanout::<S>::notify::<F>, (fanout, kind, is_closed), ()),
        0 <= i < old(fanout)@.len(),
        !call_ensures(is_closed, (&old(fanout)@[i].handle,), true),
    ensures
        exists|k: int|
            {
                &&& 0 <= k < final(fanout)@.len()
                &&& (#[trigger] final(fanout)@[k]).handle == old(fanout)@[i].handle
                &&& final(fanout)@[k].pending == old(fanout)@[i].pending.push(kind)
            },
        final(fanout)@.len() <= old(fanout)@.len(),
{
    let open = choose|open: Seq<bool>|
        {
            &&& open.len() == old(fanout)@.len()
            &&& forall|i: int|
                0 <= i < old(fanout)@.len() ==> call_ensures(
                    is_closed,
                    (&old(fanout)@[i].handle,),
                    !#[trigger] open[i],
                )
            &&& final(fanout)@ == notified(#[trigger] retained(old(fanout)@, open), kind)
        };
    assert(open[i]);
    an_open_subscriber_is_told_once(old(fanout)@, open, kind, i);
    lemma_retained_len(old(fanout)@, open);
    assert(final(fanout)@[place(old(fanout)@, open, i)].handle == old(fanout)@[i].handle);
}

proof fn lemma_retained_len<S>(subs: Seq<S>, flags: Seq<bool>)
    ensures
        retained(subs, flags).len() <= subs.len(),
    decreases subs.len(),
{
    if subs.len() > 0 {
        lemma_retained_len(subs.drop_last(), flags);
    }
}

/// Whoever is told of a change subscribed before and was not gone, and it is
/// told that change once, behind what it was told before.
pub proof fn nobody_else_is_told<S, F: Fn(&S) -> bool>(
    fanout: &mut McpHttpFanout<S>,
    kind: McpListKind,
    is_closed: F,
    k: int,
)
    requires
        call_ensures(McpHttpFanout::<S>::notify::<F>, (fanout, kind, is_closed), ()),
        0 <= k < final(fanout)@.len(),
    ensures
        exists|i: int|
            {
                &&& 0 <= i < old(fanout)@.len()
                &&& call_ensures(is_closed, (&(#[trigger] old(fanout)@[i]).handle,), false)
                &&& final(fanout)@[k].handle == old(fanout)@[i].handle
                &&& final(fanout)@[k].pending == old(fanout)@[i].pending.push(kind)
            },
{
    let subs = old(fanout)@;
    let open = choose|open: Seq<bool>|
        {
            &&& open.len() == old(fanout)@.len()
            &&& forall|i: int|
                0 <= i < old(fanout)@.len() ==> call_ensures(
                    is_closed,
                    (&old(fanout)@[i].handle,),
                    !#[trigger] open[i],
                )
            &&& final(fanout)@ == notified(#[trigger] retained(old(fanout)@, open), kind)
        };
    only_open_subscribers_are_told(subs, open, kind, k);
    let i = choose|i: int| 0 <= i < subs.len() && #[trigger] open[i] && place(subs, open, i) == k;
    an_open_subscriber_is_told_once(subs, open, kind, i);
    assert(call_ensures(is_closed, (&subs[i].handle,), !open[i]));
    assert(subs[i].handle == final(fanout)@[k].handle);
}

/// A new subscriber stands behind the others, and nothing waits for it.
pub proof fn a_new_subscriber_starts_with_nothing<S, F: Fn(&S) -> bool>(
    fanout: &mut McpHttpFanout<S>,
    is_closed: F,
    handle: S,
)
    requires
        call_ensures(McpHttpFanout::<S>::subscribe::<F>, (fanout, is_closed, handle), ()),
    ensures
        0 < final(fanout)@.len() <= old(fanout)@.len() + 1,
        final(fanout)@.last().handle == handle,
        final(fanout)@.last().pending.len() == 0,
{
    let open = choose|open: Seq<bool>|
        {
            &&& open.len() == old(fanout)@.len()
            &&& forall|i: int|
                0 <= i < old(fanout)@.len() ==> call_ensures(
                    is_closed,
                    (&old(fanout)@[i].handle,),
                    !#[trigger] open[i],
                )
            &&& final(fanout)@ == (#[trigger] retained(old(fanout)@, open)).push(
                SubscriberView { handle, pending: Seq::empty() },
            )
        };
    lemma_retained_len(old(fanout)@, open);
}

} // verus!
