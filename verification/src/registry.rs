//! In-memory caller credentials.

use crate::caller::{CallerView, McpCaller};
use crate::token::{
    caller_token, generate_caller_token, is_caller_token, token_text, CallerToken, CALLER_TOKEN_BYTES,
};
use vstd::hash_map::StringHashMap;
use vstd::prelude::*;

verus! {

/// Environment variable that carries the shared MCP HTTP URL.
pub const BOTSTER_MCP_URL_ENV: &'static str = "BOTSTER_MCP_URL";

/// Environment variable that carries the caller bearer token.
pub const BOTSTER_MCP_TOKEN_ENV: &'static str = "BOTSTER_MCP_TOKEN";

/// Issued URL and bearer token for one caller.
pub struct IssuedMcpCaller {
    /// Shared Streamable HTTP URL.
    pub url: String,
    /// Caller-specific bearer token.
    pub token: CallerToken,
}

/// What an issued credential is.
pub struct IssuedView {
    pub url: Seq<char>,
    pub token: Seq<char>,
}

impl View for IssuedMcpCaller {
    type V = IssuedView;

    open spec fn view(&self) -> IssuedView {
        IssuedView { url: self.url@, token: self.token@ }
    }
}

impl IssuedMcpCaller {
    /// The environment variable that carries the URL.
    #[must_use]
    pub fn url_env(&self) -> (r: &'static str)
        ensures
            r@ == BOTSTER_MCP_URL_ENV@,
    {
        BOTSTER_MCP_URL_ENV
    }

    /// The environment variable that carries the token.
    #[must_use]
    pub fn token_env(&self) -> (r: &'static str)
        ensures
            r@ == BOTSTER_MCP_TOKEN_ENV@,
    {
        BOTSTER_MCP_TOKEN_ENV
    }
}

impl Clone for IssuedMcpCaller {
    fn clone(&self) -> (r: Self)
        ensures
            r@ == self@,
    {
        IssuedMcpCaller { url: self.url.clone(), token: self.token.clone() }
    }
}

/// Why no credential was issued.
#[derive(Debug, Clone, Copy, PartialEq, Eq, Structural)]
pub enum IssueError {
    /// The shared HTTP listener has no published URL.
    ListenerNotRunning,
}

impl IssueError {
    /// The error in words.
    pub fn message(&self) -> (r: String)
        ensures
            r@ == "shared MCP HTTP listener is not running"@,
    {
        "shared MCP HTTP listener is not running".to_owned()
    }
}

/// The state of a registry.
pub struct RegistryView {
    /// The published URL of the shared listener.
    pub url: Option<Seq<char>>,
    /// The caller behind each live token.
    pub by_token: Map<Seq<char>, CallerView>,
    /// The token that was last issued to each session.
    pub by_session: Map<Seq<char>, Seq<char>>,
}

impl RegistryView {
    /// No URL and no credentials.
    pub open spec fn empty() -> RegistryView {
        RegistryView { url: None, by_token: Map::empty(), by_session: Map::empty() }
    }

    /// The caller that a token authorizes.
    pub open spec fn authorize(self, token: Seq<char>) -> Option<CallerView> {
        if self.by_token.contains_key(token) {
            Some(self.by_token[token])
        } else {
            None
        }
    }

    /// The token of a session that is still live.
    pub open spec fn live_token(self, session: Seq<char>) -> Option<Seq<char>> {
        if self.by_session.contains_key(session) && self.by_token.contains_key(
            self.by_session[session],
        ) {
            Some(self.by_session[session])
        } else {
            None
        }
    }

    /// The state once `token` was given to `caller`.
    pub open spec fn enroll(self, caller: CallerView, token: Seq<char>) -> RegistryView {
        RegistryView {
            url: self.url,
            by_token: self.by_token.insert(token, caller),
            by_session: self.by_session.insert(caller.session_uuid, token),
        }
    }

    /// A request for a credential, where `fresh` is the token at hand: refused
    /// without a URL, answered with the live token of the session where there
    /// is one, else with `fresh`, which is live from then on.
    pub open spec fn issue(self, caller: CallerView, fresh: Seq<char>) -> (
        RegistryView,
        Result<IssuedView, IssueError>,
    ) {
        match self.url {
            None => (self, Err(IssueError::ListenerNotRunning)),
            Some(url) => match self.live_token(caller.session_uuid) {
                Some(token) => (self, Ok(IssuedView { url, token })),
                None => (self.enroll(caller, fresh), Ok(IssuedView { url, token: fresh })),
            },
        }
    }

    /// The state once the credential of a session was revoked.
    pub open spec fn revoke_session(self, session: Seq<char>) -> RegistryView {
        if self.by_session.contains_key(session) {
            RegistryView {
                url: self.url,
                by_token: self.by_token.remove(self.by_session[session]),
                by_session: self.by_session.remove(session),
            }
        } else {
            self
        }
    }

    /// Every live token is the one last issued to its caller's session.
    pub open spec fn consistent(self) -> bool {
        forall|t: Seq<char>| #[trigger]
            self.by_token.contains_key(t) ==> {
                &&& self.by_session.contains_key(self.by_token[t].session_uuid)
                &&& self.by_session[self.by_token[t].session_uuid] == t
            }
    }

    /// What holds of every registry: it is consistent, its credentials are
    /// finitely many, there are none without a URL, and each session was given
    /// a caller token.
    pub open spec fn well_formed(self) -> bool {
        &&& self.consistent()
        &&& self.by_token.dom().finite()
        &&& self.url is None ==> self.by_token == Map::<Seq<char>, CallerView>::empty()
            && self.by_session == Map::<Seq<char>, Seq<char>>::empty()
        &&& forall|s: Seq<char>| #[trigger]
            self.by_session.contains_key(s) ==> is_caller_token(self.by_session[s])
    }

    /// The sessions that a live token stands for.
    pub open spec fn live_sessions(self) -> Set<Seq<char>> {
        self.by_token.dom().map(|t: Seq<char>| self.by_token[t].session_uuid)
    }

    /// No two sessions were given the same token: the token of each session is
    /// live and its own. It holds for as long as fresh tokens are new.
    pub open spec fn exclusive(self) -> bool {
        forall|s: Seq<char>| #[trigger]
            self.by_session.contains_key(s) ==> {
                &&& self.by_token.contains_key(self.by_session[s])
                &&& self.by_token[self.by_session[s]].session_uuid == s
            }
    }
}

/// What a request for a credential was answered.
pub open spec fn issued_view(r: Result<IssuedMcpCaller, IssueError>) -> Result<
    IssuedView,
    IssueError,
> {
    match r {
        Ok(issued) => Ok(issued@),
        Err(e) => Err(e),
    }
}

/// The text in an option.
pub open spec fn text_view(s: Option<String>) -> Option<Seq<char>> {
    match s {
        Some(s) => Some(s@),
        None => None,
    }
}

/// The URL and the credentials of a registry.
struct Tables {
    url: Option<String>,
    by_token: StringHashMap<McpCaller>,
    by_session: StringHashMap<String>,
}

impl View for Tables {
    type V = RegistryView;

    closed spec fn view(&self) -> RegistryView {
        RegistryView {
            url: text_view(self.url),
            by_token: self.by_token@.map_values(|c: McpCaller| c@),
            by_session: self.by_session@.map_values(|t: String| t@),
        }
    }
}

impl Tables {
    fn new() -> (r: Tables)
        ensures
            r@ == RegistryView::empty(),
    {
        let r = Tables {
            url: None,
            by_token: StringHashMap::new(),
            by_session: StringHashMap::new(),
        };
        assert(r@.by_token =~= Map::empty());
        assert(r@.by_session =~= Map::empty());
        r
    }

    /// The answer to a request for a credential that needs no fresh token.
    fn settled(&self, session: &str) -> (r: Option<Result<IssuedMcpCaller, IssueError>>)
        ensures
            match r {
                Some(Ok(issued)) => {
                    &&& self@.url == Some(issued@.url)
                    &&& self@.live_token(session@) == Some(issued@.token)
                },
                Some(Err(e)) => self@.url is None && e == IssueError::ListenerNotRunning,
                None => self@.url is Some && self@.live_token(session@) is None,
            },
    {
        let url = match &self.url {
            Some(url) => url.clone(),
            None => {
                return Some(Err(IssueError::ListenerNotRunning));
            },
        };
        match self.by_session.get(session) {
            Some(existing) => if self.by_token.contains_key(existing.as_str()) {
                Some(Ok(IssuedMcpCaller { url, token: CallerToken::new(existing.as_str()) }))
            } else {
                None
            },
            None => None,
        }
    }

    /// Gives a token to a caller.
    fn enroll(&mut self, caller: McpCaller, token: String) -> (r: Result<
        IssuedMcpCaller,
        IssueError,
    >)
        requires
            old(self)@.url is Some,
        ensures
            final(self)@ == old(self)@.enroll(caller@, token@),
            issued_view(r) == Ok::<IssuedView, IssueError>(
                IssuedView { url: old(self)@.url->0, token: token@ },
            ),
    {
        let ghost before = self@;
        let issued = CallerToken::new(token.as_str());
        self.by_session.insert(caller.session_uuid.clone(), token.clone());
        self.by_token.insert(token, caller);
        assert(self@.by_token =~= before.by_token.insert(token@, caller@));
        assert(self@.by_session =~= before.by_session.insert(caller@.session_uuid, token@));
        match &self.url {
            Some(url) => Ok(IssuedMcpCaller { url: url.clone(), token: issued }),
            None => Err(IssueError::ListenerNotRunning),
        }
    }

    /// Takes the credential of a session out.
    fn revoke(&mut self, session_uuid: &str)
        ensures
            final(self)@ == old(self)@.revoke_session(session_uuid@),
    {
        let ghost before = self@;
        let token = match self.by_session.get(session_uuid) {
            Some(token) => token.clone(),
            None => {
                return ;
            },
        };
        self.by_session.remove(session_uuid);
        self.by_token.remove(token.as_str());
        assert(self@.by_session =~= before.by_session.remove(session_uuid@));
        assert(self@.by_token =~= before.by_token.remove(token@));
    }
}

/// What a registry prints of itself: the URL and the number of credentials,
/// and no token.
#[derive(Debug)]
pub struct CallerState {
    /// The published shared URL.
    pub url: Option<String>,
    /// Number of live caller credentials.
    pub callers: usize,
}

/// In-memory caller credentials for the live process.
///
/// Tokens live only in this process. Shutdown drops them. Session close
/// revokes the matching token. Re-issue for the same session returns the live
/// token.
pub struct McpCallerRegistry {
    tables: Tables,
}

impl View for McpCallerRegistry {
    type V = RegistryView;

    closed spec fn view(&self) -> RegistryView {
        self.tables@
    }
}

impl Default for McpCallerRegistry {
    fn default() -> (r: Self)
        ensures
            r@ == RegistryView::empty(),
            r@.well_formed(),
    {
        McpCallerRegistry::new()
    }
}

impl McpCallerRegistry {
    #[verifier::type_invariant]
    closed spec fn inv(self) -> bool {
        self.tables@.well_formed()
    }

    /// Creates an empty caller registry.
    #[must_use]
    pub fn new() -> (r: McpCallerRegistry)
        ensures
            r@ == RegistryView::empty(),
            r@.well_formed(),
    {
        McpCallerRegistry { tables: Tables::new() }
    }

    /// Publishes the shared listener URL that later `issue` calls return.
    pub fn set_url(&mut self, url: &str)
        ensures
            final(self)@ == (RegistryView { url: Some(url@), ..old(self)@ }),
            final(self)@.well_formed(),
    {
        proof {
            use_type_invariant(&*self);
        }
        let ghost before = self@;
        let mut tables = Tables::new();
        std::mem::swap(&mut tables, &mut self.tables);
        tables.url = Some(url.to_owned());
        proof {
            lemma_step(before, RegistryCall::SetUrl(url@));
        }
        self.tables = tables;
    }

    /// The published shared URL, if the listener is up.
    #[must_use]
    pub fn url(&self) -> (r: Option<String>)
        ensures
            text_view(r) == self@.url,
    {
        match &self.tables.url {
            Some(url) => Some(url.clone()),
            None => None,
        }
    }

    /// Gives a token to a caller whose session has none.
    fn enroll(&mut self, caller: McpCaller, token: String) -> (r: Result<
        IssuedMcpCaller,
        IssueError,
    >)
        requires
            old(self)@.url is Some,
            old(self)@.live_token(caller@.session_uuid) is None,
            is_caller_token(token@),
        ensures
            (final(self)@, issued_view(r)) == old(self)@.issue(caller@, token@),
            final(self)@.well_formed(),
    {
        proof {
            use_type_invariant(&*self);
        }
        let ghost before = self@;
        let mut tables = Tables::new();
        std::mem::swap(&mut tables, &mut self.tables);
        proof {
            lemma_step(before, RegistryCall::Issue(caller@, token@));
        }
        let issued = tables.enroll(caller, token);
        self.tables = tables;
        issued
    }

    /// Issues or reuses a caller credential for this session, with a fresh
    /// token made of a given secret.
    pub fn issue_with(&mut self, caller: McpCaller, secret: &[u8; CALLER_TOKEN_BYTES]) -> (r: Result<
        IssuedMcpCaller,
        IssueError,
    >)
        ensures
            (final(self)@, issued_view(r)) == old(self)@.issue(caller@, token_text(secret@)),
            r matches Ok(issued) ==> is_caller_token(issued@.token),
            final(self)@.well_formed(),
    {
        proof {
            use_type_invariant(&*self);
        }
        match self.tables.settled(caller.session_uuid.as_str()) {
            Some(answer) => answer,
            None => {
                let token = caller_token(secret);
                assert(token@ == token_text(secret@));
                self.enroll(caller, token)
            },
        }
    }

    /// Issues or reuses a caller credential for this session.
    ///
    /// The secret of a fresh token rests on chance; what happens with it is
    /// what [`McpCallerRegistry::issue_with`] does.
    pub fn issue(&mut self, caller: McpCaller) -> (r: Result<IssuedMcpCaller, IssueError>)
        ensures
            exists|secret: Seq<u8>|
                secret.len() == CALLER_TOKEN_BYTES && (final(self)@, issued_view(r)) == old(
                    self,
                )@.issue(caller@, #[trigger] token_text(secret)),
            r matches Ok(issued) ==> is_caller_token(issued@.token),
            final(self)@.well_formed(),
    {
        proof {
            use_type_invariant(&*self);
        }
        match self.tables.settled(caller.session_uuid.as_str()) {
            Some(answer) => {
                let ghost any = Seq::new(CALLER_TOKEN_BYTES as nat, |i: int| 0u8);
                assert((self@, issued_view(answer)) == old(self)@.issue(caller@, token_text(any)));
                answer
            },
            None => {
                let token = generate_caller_token();
                self.enroll(caller, token)
            },
        }
    }

    /// Authorizes a bearer token and returns that caller only.
    #[must_use]
    pub fn authorize(&self, token: &str) -> (r: Option<McpCaller>)
        ensures
            match r {
                Some(caller) => self@.authorize(token@) == Some(caller@),
                None => self@.authorize(token@) is None,
            },
    {
        match self.tables.by_token.get(token) {
            Some(caller) => Some(caller.clone()),
            None => None,
        }
    }

    /// Revokes the credential of a session.
    pub fn revoke_session(&mut self, session_uuid: &str)
        ensures
            final(self)@ == old(self)@.revoke_session(session_uuid@),
            final(self)@.well_formed(),
    {
        proof {
            use_type_invariant(&*self);
        }
        let ghost before = self@;
        let mut tables = Tables::new();
        std::mem::swap(&mut tables, &mut self.tables);
        tables.revoke(session_uuid);
        proof {
            lemma_step(before, RegistryCall::RevokeSession(session_uuid@));
        }
        self.tables = tables;
    }

    /// Drops every credential. Used on shutdown.
    pub fn revoke_all(&mut self)
        ensures
            final(self)@ == RegistryView::empty(),
            final(self)@.well_formed(),
    {
        self.tables = Tables::new();
    }

    /// Number of live caller credentials, which is that of the sessions with
    /// one.
    #[must_use]
    pub fn caller_count(&self) -> (r: usize)
        ensures
            r == self@.by_token.len(),
            r == self@.live_sessions().len(),
            self@.url is None ==> r == 0,
    {
        proof {
            use_type_invariant(self);
            the_count_is_that_of_the_live_sessions(self@);
        }
        assert(self@.by_token.dom() =~= self.tables.by_token@.dom());
        self.tables.by_token.len()
    }

    /// What may be printed of the registry.
    pub fn state(&self) -> (r: CallerState)
        ensures
            text_view(r.url) == self@.url,
            r.callers == self@.by_token.len(),
    {
        CallerState { url: self.url(), callers: self.caller_count() }
    }
}

/// A call that changes a registry.
pub enum RegistryCall {
    /// A URL is published.
    SetUrl(Seq<char>),
    /// A caller asks for a credential, with this fresh token at hand.
    Issue(CallerView, Seq<char>),
    /// The credential of a session is revoked.
    RevokeSession(Seq<char>),
    /// Every credential is dropped.
    RevokeAll,
}

impl RegistryView {
    /// The state after a call.
    pub open spec fn after(self, call: RegistryCall) -> RegistryView {
        match call {
            RegistryCall::SetUrl(url) => RegistryView { url: Some(url), ..self },
            RegistryCall::Issue(caller, fresh) => self.issue(caller, fresh).0,
            RegistryCall::RevokeSession(session) => self.revoke_session(session),
            RegistryCall::RevokeAll => RegistryView::empty(),
        }
    }

    /// The state after a run of calls.
    pub open spec fn after_all(self, calls: Seq<RegistryCall>) -> RegistryView
        decreases calls.len(),
    {
        if calls.len() == 0 {
            self
        } else {
            self.after_all(calls.drop_last()).after(calls.last())
        }
    }

    /// Every fresh token in a run of calls is new: no live one when it comes up.
    pub open spec fn draws_new_tokens(self, calls: Seq<RegistryCall>) -> bool
        decreases calls.len(),
    {
        calls.len() > 0 ==> {
            &&& self.draws_new_tokens(calls.drop_last())
            &&& calls.last() matches RegistryCall::Issue(_, fresh) ==> !self.after_all(
                calls.drop_last(),
            ).by_token.contains_key(fresh)
        }
    }
}

/// The fresh token of a call, where it has one, is a caller token.
pub open spec fn draws_a_caller_token(call: RegistryCall) -> bool {
    call matches RegistryCall::Issue(_, fresh) ==> is_caller_token(fresh)
}

proof fn lemma_step(s: RegistryView, call: RegistryCall)
    requires
        s.well_formed(),
        draws_a_caller_token(call),
    ensures
        s.after(call).well_formed(),
{
    let next = s.after(call);
    every_registry_is_consistent(s, call);
    assert forall|x: Seq<char>| #[trigger] next.by_session.contains_key(x) implies is_caller_token(
        next.by_session[x],
    ) by {
        if next.by_session == s.by_session || !(call matches RegistryCall::Issue(caller, _)
            && caller.session_uuid == x) {
            assert(s.by_session.contains_key(x));
        }
    }
}

/// After any run of calls a registry is well-formed, whatever caller tokens
/// come up.
pub proof fn every_history_leaves_a_well_formed_registry(calls: Seq<RegistryCall>)
    requires
        forall|i: int| 0 <= i < calls.len() ==> draws_a_caller_token(#[trigger] calls[i]),
    ensures
        RegistryView::empty().after_all(calls).well_formed(),
    decreases calls.len(),
{
    if calls.len() > 0 {
        assert forall|i: int| 0 <= i < calls.drop_last().len() implies draws_a_caller_token(
            #[trigger] calls.drop_last()[i],
        ) by {
            assert(calls.drop_last()[i] == calls[i]);
        }
        every_history_leaves_a_well_formed_registry(calls.drop_last());
        lemma_step(RegistryView::empty().after_all(calls.drop_last()), calls.last());
    }
}

/// Without a published URL there is no credential, and none is issued.
pub proof fn without_a_url_there_is_no_credential(
    s: RegistryView,
    token: Seq<char>,
    caller: CallerView,
    fresh: Seq<char>,
)
    requires
        s.well_formed(),
        s.url is None,
    ensures
        s.authorize(token) is None,
        s.by_token.len() == 0,
        s.issue(caller, fresh) == (s, Err::<IssuedView, IssueError>(IssueError::ListenerNotRunning)),
{
}

/// The number of credentials is that of the tokens which authorize a caller,
/// and that of the sessions which such a token stands for.
pub proof fn the_count_is_that_of_the_live_sessions(s: RegistryView)
    requires
        s.well_formed(),
    ensures
        s.by_token.len() == Set::new(|t: Seq<char>| s.authorize(t) is Some).len(),
        s.by_token.len() == s.live_sessions().len(),
        forall|x: Seq<char>| #[trigger]
            s.live_sessions().contains(x) <==> exists|t: Seq<char>| #[trigger]
                s.authorize(t) is Some && s.authorize(t)->0.session_uuid == x,
        s.url is None ==> s.by_token.len() == 0,
{
    let f = |t: Seq<char>| s.by_token[t].session_uuid;
    assert(Set::new(|t: Seq<char>| s.authorize(t) is Some) =~= s.by_token.dom());
    assert(vstd::relations::injective_on(f, s.by_token.dom())) by {
        assert forall|a: Seq<char>, b: Seq<char>|
            s.by_token.dom().contains(a) && s.by_token.dom().contains(b) && #[trigger] f(a)
                == #[trigger] f(b) implies a == b by {
            assert(s.by_token.contains_key(a) && s.by_token.contains_key(b));
        }
    }
    vstd::set_lib::lemma_map_size(s.by_token.dom(), s.live_sessions(), f);
    assert forall|x: Seq<char>| #[trigger] s.live_sessions().contains(x) implies exists|t: Seq<char>|
        #[trigger] s.authorize(t) is Some && s.authorize(t)->0.session_uuid == x by {
        let t = choose|t: Seq<char>| s.by_token.dom().contains(t) && x == f(t);
        assert(s.authorize(t) is Some);
    }
    assert forall|x: Seq<char>, t: Seq<char>|
        #[trigger] s.authorize(t) is Some && s.authorize(t)->0.session_uuid == x implies
        #[trigger] s.live_sessions().contains(x) by {
        assert(s.by_token.dom().contains(t) && x == f(t));
    }
}

/// To revoke a session with a live token takes one off the number of
/// credentials; to revoke another leaves it.
pub proof fn the_count_follows_the_revocations(s: RegistryView, session: Seq<char>)
    requires
        s.well_formed(),
    ensures
        s.revoke_session(session).by_token.len() == s.by_token.len() - (if s.live_token(
            session,
        ) is Some {
            1int
        } else {
            0int
        }),
{
}

/// Every live token stays the one last issued to its caller's session,
/// whatever is done to a registry and whatever fresh tokens come up.
pub proof fn every_registry_is_consistent(s: RegistryView, call: RegistryCall)
    requires
        s.consistent(),
    ensures
        RegistryView::empty().consistent(),
        s.after(call).consistent(),
{
    let next = s.after(call);
    assert forall|t: Seq<char>| #[trigger] next.by_token.contains_key(t) implies {
        &&& next.by_session.contains_key(next.by_token[t].session_uuid)
        &&& next.by_session[next.by_token[t].session_uuid] == t
    } by {
        if next.by_token == s.by_token || !(call matches RegistryCall::Issue(_, fresh) && fresh == t) {
            assert(s.by_token.contains_key(t));
        }
    }
}

/// No session has two live tokens.
pub proof fn a_session_has_one_live_token(s: RegistryView, a: Seq<char>, b: Seq<char>)
    requires
        s.consistent(),
        s.by_token.contains_key(a),
        s.by_token.contains_key(b),
        s.by_token[a].session_uuid == s.by_token[b].session_uuid,
    ensures
        a == b,
{
}

/// As long as every fresh token is new, no two sessions share a token.
pub proof fn new_tokens_keep_sessions_apart(s: RegistryView, call: RegistryCall)
    requires
        s.exclusive(),
        call matches RegistryCall::Issue(_, fresh) ==> !s.by_token.contains_key(fresh),
    ensures
        RegistryView::empty().exclusive(),
        s.after(call).exclusive(),
{
    let next = s.after(call);
    assert forall|x: Seq<char>| #[trigger] next.by_session.contains_key(x) implies {
        &&& next.by_token.contains_key(next.by_session[x])
        &&& next.by_token[next.by_session[x]].session_uuid == x
    } by {
        if next.by_session == s.by_session || !(call matches RegistryCall::Issue(caller, _)
            && caller.session_uuid == x) {
            assert(s.by_session.contains_key(x));
        }
        if let RegistryCall::RevokeSession(session) = call {
            assert(s.by_session.contains_key(session) ==> s.by_token[s.by_session[session]].session_uuid
                == session);
        }
    }
}

/// After any run of calls that draws new tokens, no two sessions share one.
pub proof fn every_history_of_new_tokens_keeps_sessions_apart(
    s: RegistryView,
    calls: Seq<RegistryCall>,
)
    requires
        s.exclusive(),
        s.draws_new_tokens(calls),
    ensures
        RegistryView::empty().exclusive(),
        s.after_all(calls).exclusive(),
    decreases calls.len(),
{
    if calls.len() > 0 {
        every_history_of_new_tokens_keeps_sessions_apart(s, calls.drop_last());
        new_tokens_keep_sessions_apart(s.after_all(calls.drop_last()), calls.last());
    }
}

/// A live token stays the token of its session, and authorizes the same
/// caller, through any run of calls that draws new tokens and does not revoke
/// it: the next request of the session gets it again.
pub proof fn a_live_token_outlasts_the_calls_of_others(
    s: RegistryView,
    calls: Seq<RegistryCall>,
    session: Seq<char>,
    caller: CallerView,
    fresh: Seq<char>,
)
    requires
        s.exclusive(),
        s.url is Some,
        s.live_token(session) is Some,
        s.draws_new_tokens(calls),
        forall|i: int|
            0 <= i < calls.len() ==> #[trigger] calls[i] != RegistryCall::RevokeAll && calls[i]
                != RegistryCall::RevokeSession(session),
        caller.session_uuid == session,
    ensures
        ({
            let last = s.after_all(calls);
            let token = s.live_token(session)->0;
            &&& last.live_token(session) == Some(token)
            &&& last.authorize(token) == s.authorize(token)
            &&& last.url is Some
            &&& last.issue(caller, fresh) == (
                last,
                Ok::<IssuedView, IssueError>(IssuedView { url: last.url->0, token }),
            )
        }),
    decreases calls.len(),
{
    if calls.len() > 0 {
        let front = calls.drop_last();
        assert forall|i: int| 0 <= i < front.len() implies #[trigger] front[i]
            != RegistryCall::RevokeAll && front[i] != RegistryCall::RevokeSession(session) by {
            assert(front[i] == calls[i]);
        }
        a_live_token_outlasts_the_calls_of_others(s, front, session, caller, fresh);
        every_history_of_new_tokens_keeps_sessions_apart(s, front);
        assert(calls.last() == calls[calls.len() - 1]);
        let middle = s.after_all(front);
        assert(middle.by_session.contains_key(session));
        if let RegistryCall::RevokeSession(other) = calls.last() {
            assert(middle.by_session.contains_key(other) ==> middle.by_token[middle.by_session[other]].session_uuid
                == other);
        }
    }
}

/// In a run of calls on an empty registry, the call at a place newly issues a
/// token to a caller: a URL is published, and the caller's session has no live
/// token yet.
pub open spec fn newly_issues(
    calls: Seq<RegistryCall>,
    at: int,
    token: Seq<char>,
    caller: CallerView,
) -> bool {
    let before = RegistryView::empty().after_all(calls.take(at));
    &&& calls[at] == RegistryCall::Issue(caller, token)
    &&& before.url is Some
    &&& before.live_token(caller.session_uuid) is None
}

/// A call that revokes the credential of a session.
pub open spec fn revokes(call: RegistryCall, session: Seq<char>) -> bool {
    call == RegistryCall::RevokeAll || call == RegistryCall::RevokeSession(session)
}

/// In a run of calls on an empty registry, a token was newly issued to a caller
/// and its session was not revoked since.
pub open spec fn holds_credential(
    calls: Seq<RegistryCall>,
    token: Seq<char>,
    caller: CallerView,
) -> bool {
    exists|at: int|
        {
            &&& 0 <= at < calls.len()
            &&& #[trigger] newly_issues(calls, at, token, caller)
            &&& forall|later: int|
                at < later < calls.len() ==> !revokes(
                    #[trigger] calls[later],
                    caller.session_uuid,
                )
        }
}

/// Over any run of calls that draws new tokens, a token authorizes a caller
/// exactly where some call newly issued it to that caller and neither that
/// session nor everything was revoked after that.
pub proof fn the_history_decides_who_is_authorized(
    calls: Seq<RegistryCall>,
    token: Seq<char>,
    caller: CallerView,
)
    requires
        RegistryView::empty().draws_new_tokens(calls),
    ensures
        RegistryView::empty().after_all(calls).authorize(token) == Some(caller)
            <==> holds_credential(calls, token, caller),
    decreases calls.len(),
{
    if calls.len() > 0 {
        let front = calls.drop_last();
        let call = calls.last();
        let before = RegistryView::empty().after_all(front);
        let session = caller.session_uuid;
        the_history_decides_who_is_authorized(front, token, caller);
        lemma_history_is_consistent(front);
        every_history_of_new_tokens_keeps_sessions_apart(RegistryView::empty(), front);
        lemma_last_call(calls, token, caller);
        if let RegistryCall::RevokeSession(other) = call {
            if before.by_session.contains_key(other) {
                assert(before.by_token[before.by_session[other]].session_uuid == other);
            }
            if before.by_token.contains_key(token) {
                assert(before.by_session[before.by_token[token].session_uuid] == token);
            }
        }
    }
}

/// What the last call of a run does to who holds a credential.
proof fn lemma_last_call(calls: Seq<RegistryCall>, token: Seq<char>, caller: CallerView)
    requires
        calls.len() > 0,
    ensures
        holds_credential(calls, token, caller) <==> {
            ||| newly_issues(calls, calls.len() - 1, token, caller)
            ||| holds_credential(calls.drop_last(), token, caller) && !revokes(
                calls.last(),
                caller.session_uuid,
            )
        },
        calls.take(calls.len() - 1) == calls.drop_last(),
{
    let front = calls.drop_last();
    let last = calls.len() - 1;
    assert(calls.take(last) =~= front);
    assert forall|at: int| 0 <= at < last implies newly_issues(calls, at, token, caller)
        == #[trigger] newly_issues(front, at, token, caller) by {
        assert(front.take(at) =~= calls.take(at));
    }
    if holds_credential(calls, token, caller) {
        let at = choose|at: int|
            {
                &&& 0 <= at < calls.len()
                &&& #[trigger] newly_issues(calls, at, token, caller)
                &&& forall|later: int|
                    at < later < calls.len() ==> !revokes(
                        #[trigger] calls[later],
                        caller.session_uuid,
                    )
            };
        if at < last {
            assert(newly_issues(front, at, token, caller));
            assert(!revokes(calls[last], caller.session_uuid));
        }
    }
    if holds_credential(front, token, caller) && !revokes(calls.last(), caller.session_uuid) {
        let at = choose|at: int|
            {
                &&& 0 <= at < front.len()
                &&& #[trigger] newly_issues(front, at, token, caller)
                &&& forall|later: int|
                    at < later < front.len() ==> !revokes(
                        #[trigger] front[later],
                        caller.session_uuid,
                    )
            };
        assert(newly_issues(calls, at, token, caller));
        assert forall|later: int| at < later < calls.len() implies !revokes(
            #[trigger] calls[later],
            caller.session_uuid,
        ) by {
            if later < last {
                assert(front[later] == calls[later]);
            }
        }
    }
}

proof fn lemma_history_is_consistent(calls: Seq<RegistryCall>)
    ensures
        RegistryView::empty().after_all(calls).consistent(),
    decreases calls.len(),
{
    if calls.len() > 0 {
        lemma_history_is_consistent(calls.drop_last());
        every_registry_is_consistent(
            RegistryView::empty().after_all(calls.drop_last()),
            calls.last(),
        );
    }
}

/// A second request of a session, whatever else its caller says, gets the
/// live token again and changes nothing.
pub proof fn reissue_returns_the_live_token(
    s: RegistryView,
    first: CallerView,
    second: CallerView,
    fresh: Seq<char>,
    other: Seq<char>,
)
    requires
        s.url is Some,
        first.session_uuid == second.session_uuid,
    ensures
        s.issue(first, fresh).1 is Ok,
        s.issue(first, fresh).0.issue(second, other) == (
            s.issue(first, fresh).0,
            s.issue(first, fresh).1,
        ),
{
}

/// An issued token authorizes a caller of the session it was issued to; a
/// fresh one authorizes exactly the caller that asked for it.
pub proof fn an_issued_token_authorizes_its_session(
    s: RegistryView,
    caller: CallerView,
    fresh: Seq<char>,
)
    requires
        s.exclusive(),
        s.url is Some,
    ensures
        ({
            let (next, answer) = s.issue(caller, fresh);
            &&& answer is Ok
            &&& next.authorize(answer->Ok_0.token) is Some
            &&& next.authorize(answer->Ok_0.token)->0.session_uuid == caller.session_uuid
            &&& s.live_token(caller.session_uuid) is None ==> next.authorize(answer->Ok_0.token)
                == Some(caller)
        }),
{
}

/// Two sessions get different tokens under one URL, and neither token
/// authorizes the other's caller.
pub proof fn sessions_do_not_share_tokens(
    s: RegistryView,
    alice: CallerView,
    bob: CallerView,
    first: Seq<char>,
    second: Seq<char>,
)
    requires
        s.exclusive(),
        s.url is Some,
        alice.session_uuid != bob.session_uuid,
        !s.by_token.contains_key(first),
        !s.by_token.contains_key(second),
        first != second,
    ensures
        ({
            let (middle, a) = s.issue(alice, first);
            let (last, b) = middle.issue(bob, second);
            &&& a is Ok && b is Ok
            &&& a->Ok_0.url == b->Ok_0.url
            &&& a->Ok_0.token != b->Ok_0.token
            &&& last.authorize(a->Ok_0.token) is Some
            &&& last.authorize(a->Ok_0.token)->0.session_uuid == alice.session_uuid
            &&& last.authorize(b->Ok_0.token) is Some
            &&& last.authorize(b->Ok_0.token)->0.session_uuid == bob.session_uuid
        }),
{
    let (middle, a) = s.issue(alice, first);
    new_tokens_keep_sessions_apart(s, RegistryCall::Issue(alice, first));
    an_issued_token_authorizes_its_session(s, alice, first);
    let (last, b) = middle.issue(bob, second);
    new_tokens_keep_sessions_apart(middle, RegistryCall::Issue(bob, second));
    an_issued_token_authorizes_its_session(middle, bob, second);
    assert(middle.by_session.contains_key(alice.session_uuid));
    assert(last.by_session.contains_key(alice.session_uuid));
    assert(last.by_session.contains_key(bob.session_uuid));
}

/// A new token leaves every other credential as it was.
pub proof fn issue_leaves_other_tokens_alone(
    s: RegistryView,
    caller: CallerView,
    fresh: Seq<char>,
    token: Seq<char>,
)
    requires
        token != fresh,
    ensures
        s.issue(caller, fresh).0.authorize(token) == s.authorize(token),
        s.issue(caller, fresh).0.url == s.url,
{
}

/// Once a session is revoked, no token authorizes it, and the token that it
/// was issued last authorizes nobody.
pub proof fn a_revoked_session_is_refused(s: RegistryView, session: Seq<char>, token: Seq<char>)
    requires
        s.consistent(),
    ensures
        s.revoke_session(session).authorize(token) matches Some(caller) ==> caller.session_uuid
            != session,
        s.by_session.contains_key(session) ==> s.revoke_session(session).authorize(
            s.by_session[session],
        ) is None,
        s.revoke_session(session).live_token(session) is None,
{
    let rest = s.revoke_session(session);
    if rest.by_token.contains_key(token) {
        assert(s.by_token.contains_key(token));
    }
}

/// The token of a request is refused as soon as its session is revoked.
pub proof fn an_issued_token_ends_with_its_session(
    s: RegistryView,
    caller: CallerView,
    fresh: Seq<char>,
)
    requires
        s.url is Some,
    ensures
        ({
            let (next, answer) = s.issue(caller, fresh);
            next.revoke_session(caller.session_uuid).authorize(answer->Ok_0.token) is None
        }),
{
}

/// To revoke one session leaves the tokens of every other session alone.
pub proof fn revocation_is_session_scoped(s: RegistryView, session: Seq<char>, token: Seq<char>)
    requires
        s.exclusive(),
        s.authorize(token) matches Some(caller) ==> caller.session_uuid != session,
    ensures
        s.revoke_session(session).authorize(token) == s.authorize(token),
        s.revoke_session(session).url == s.url,
{
    if s.by_session.contains_key(session) {
        assert(s.by_token[s.by_session[session]].session_uuid == session);
    }
}

/// After a shutdown no token authorizes anybody, and no credential is issued
/// until a URL is published again.
pub proof fn shutdown_revokes_every_credential(
    token: Seq<char>,
    caller: CallerView,
    fresh: Seq<char>,
)
    ensures
        RegistryView::empty().authorize(token) is None,
        RegistryView::empty().by_token.len() == 0,
        RegistryView::empty().issue(caller, fresh) == (
            RegistryView::empty(),
            Err::<IssuedView, IssueError>(IssueError::ListenerNotRunning),
        ),
{
}

/// A fresh credential adds one to the number of live credentials; a reused one
/// leaves it.
pub proof fn the_count_follows_the_issues(s: RegistryView, caller: CallerView, fresh: Seq<char>)
    requires
        s.url is Some,
        s.by_token.dom().finite(),
        !s.by_token.contains_key(fresh),
    ensures
        s.issue(caller, fresh).0.by_token.len() == s.by_token.len() + (if s.live_token(
            caller.session_uuid,
        ) is Some {
            0int
        } else {
            1int
        }),
{
}

/// A request for a credential is refused without a URL. With one, it is
/// answered with that URL and the live token of the session, and changes
/// nothing; or, where there is none, with that URL and the fresh token, which
/// from then on authorizes the caller that asked, while every other token and
/// every other session stays as it was.
pub proof fn a_request_is_answered_with_url_and_token(
    s: RegistryView,
    caller: CallerView,
    fresh: Seq<char>,
    token: Seq<char>,
    session: Seq<char>,
)
    ensures
        ({
            let (next, answer) = s.issue(caller, fresh);
            &&& s.url is None ==> next == s && answer == Err::<IssuedView, IssueError>(
                IssueError::ListenerNotRunning,
            )
            &&& s.url is Some ==> answer is Ok && Some(answer->Ok_0.url) == s.url
            &&& s.url is Some && s.live_token(caller.session_uuid) is Some ==> next == s && Some(
                answer->Ok_0.token,
            ) == s.live_token(caller.session_uuid)
            &&& s.url is Some && s.live_token(caller.session_uuid) is None ==> {
                &&& answer->Ok_0.token == fresh
                &&& next.authorize(fresh) == Some(caller)
                &&& next.live_token(caller.session_uuid) == Some(fresh)
                &&& next.url == s.url
                &&& token != fresh ==> next.authorize(token) == s.authorize(token)
                &&& session != caller.session_uuid ==> {
                    &&& next.by_session.contains_key(session) <==> s.by_session.contains_key(session)
                    &&& s.by_session.contains_key(session) ==> next.by_session[session]
                        == s.by_session[session]
                }
            }
        }),
{
}

/// To revoke a session takes its own token out and leaves every other token,
/// every other session and the URL; to revoke a session without one changes
/// nothing.
pub proof fn a_revocation_takes_out_one_token(
    s: RegistryView,
    session: Seq<char>,
    token: Seq<char>,
    other: Seq<char>,
)
    ensures
        ({
            let next = s.revoke_session(session);
            &&& next.url == s.url
            &&& !s.by_session.contains_key(session) ==> next == s
            &&& s.by_session.contains_key(session) ==> {
                &&& !next.by_session.contains_key(session)
                &&& next.authorize(s.by_session[session]) is None
                &&& token != s.by_session[session] ==> next.authorize(token) == s.authorize(token)
                &&& other != session ==> {
                    &&& next.by_session.contains_key(other) <==> s.by_session.contains_key(other)
                    &&& s.by_session.contains_key(other) ==> next.by_session[other]
                        == s.by_session[other]
                }
            }
        }),
{
}

/// A token authorizes the caller that it is kept for; the live token of a
/// session is the one kept for it, while that authorizes somebody.
pub proof fn tokens_authorize_whom_they_are_kept_for(
    s: RegistryView,
    session: Seq<char>,
    token: Seq<char>,
    caller: CallerView,
)
    ensures
        s.authorize(token) == Some(caller) <==> s.by_token.contains_pair(token, caller),
        s.live_token(session) == Some(token) <==> s.by_session.contains_pair(session, token)
            && s.authorize(token) is Some,
{
}

/// The URL of a registry is the one that it gives out, and a credential is its
/// own URL and token.
pub proof fn a_registry_gives_out_its_url(
    callers: &McpCallerRegistry,
    url: Option<String>,
    issued: IssuedMcpCaller,
    refused: IssueError,
)
    requires
        call_ensures(McpCallerRegistry::url, (callers,), url),
    ensures
        url matches Some(url) ==> callers@.url == Some(url@),
        url is None ==> callers@.url is None,
        issued_view(Ok(issued)) == Ok::<IssuedView, IssueError>(
            IssuedView { url: issued.url@, token: issued.token@ },
        ),
        issued_view(Err(refused)) == Err::<IssuedView, IssueError>(refused),
{
}

/// A registry authorizes exactly the tokens that it keeps, each for its own
/// caller; what it shows of itself is its URL and how many there are.
pub proof fn a_registry_authorizes_what_it_keeps(
    callers: &McpCallerRegistry,
    token: &str,
    caller: Option<McpCaller>,
    count: usize,
    state: CallerState,
)
    requires
        call_ensures(McpCallerRegistry::authorize, (callers, token), caller),
        call_ensures(McpCallerRegistry::caller_count, (callers,), count),
        call_ensures(McpCallerRegistry::state, (callers,), state),
    ensures
        caller is Some <==> callers@.by_token.contains_key(token@),
        caller matches Some(caller) ==> {
            let kept = callers@.by_token[token@];
            &&& caller.session_uuid@ == kept.session_uuid
            &&& caller.hub_id@ == kept.hub_id
            &&& caller.context@ == kept.context
        },
        count == callers@.by_token.len(),
        state.callers == count,
        state.url matches Some(url) ==> callers@.url == Some(url@),
        state.url is None ==> callers@.url is None,
{
}

/// A credential names the environment variables that carry it, and a refusal
/// says that there is no listener.
pub proof fn a_credential_names_its_variables(
    issued: &IssuedMcpCaller,
    url_env: &'static str,
    token_env: &'static str,
    refused: &IssueError,
    message: String,
)
    requires
        call_ensures(IssuedMcpCaller::url_env, (issued,), url_env),
        call_ensures(IssuedMcpCaller::token_env, (issued,), token_env),
        call_ensures(IssueError::message, (refused,), message),
    ensures
        url_env@ == "BOTSTER_MCP_URL"@,
        token_env@ == "BOTSTER_MCP_TOKEN"@,
        message@ == "shared MCP HTTP listener is not running"@,
{
}

/// A text in an option is seen as it is.
pub proof fn optional_texts_are_seen_as_they_are(s: String)
    ensures
        text_view(Some(s)) == Some(s@),
        text_view(None) is None,
{
}

/// To publish a URL sets it and touches no credential.
pub proof fn publishing_touches_no_credential(callers: &mut McpCallerRegistry, url: &str)
    requires
        call_ensures(McpCallerRegistry::set_url, (callers, url), ()),
    ensures
        final(callers)@.url == Some(url@),
        final(callers)@.by_token == old(callers)@.by_token,
        final(callers)@.by_session == old(callers)@.by_session,
{
}

/// What a request with a given secret is answered: nothing without a URL, the
/// live token of the session, or the token of that secret, which then
/// authorizes the caller. Every other token stays as it was.
pub proof fn a_request_with_a_secret_is_answered(
    callers: &mut McpCallerRegistry,
    caller: McpCaller,
    secret: &[u8; CALLER_TOKEN_BYTES],
    r: Result<IssuedMcpCaller, IssueError>,
    token: Seq<char>,
)
    requires
        call_ensures(McpCallerRegistry::issue_with, (callers, caller, secret), r),
    ensures
        ({
            let fresh = "btcaller_"@ + crate::token::hex(secret@);
            let live = old(callers)@.live_token(caller.session_uuid@);
            &&& old(callers)@.url is None ==> r is Err && final(callers)@ == old(callers)@
            &&& old(callers)@.url is Some ==> (r matches Ok(issued) && {
                &&& old(callers)@.url == Some(issued.url@)
                &&& live is Some ==> live == Some(issued.token@) && final(callers)@ == old(callers)@
                &&& live is None ==> issued.token@ == fresh
                &&& live is None ==> final(callers)@.authorize(fresh) == Some(caller@)
                &&& final(callers)@.live_token(caller.session_uuid@) == Some(issued.token@)
            })
            &&& token != fresh ==> final(callers)@.authorize(token) == old(callers)@.authorize(token)
            &&& final(callers)@.url == old(callers)@.url
        }),
{
}

/// What a request is answered: nothing without a URL, the live token of the
/// session, or a caller token that then authorizes the caller. Every other
/// token stays as it was.
pub proof fn a_request_is_answered(
    callers: &mut McpCallerRegistry,
    caller: McpCaller,
    r: Result<IssuedMcpCaller, IssueError>,
    token: Seq<char>,
)
    requires
        call_ensures(McpCallerRegistry::issue, (callers, caller), r),
    ensures
        ({
            let live = old(callers)@.live_token(caller.session_uuid@);
            &&& old(callers)@.url is None ==> r is Err && final(callers)@ == old(callers)@
            &&& old(callers)@.url is Some ==> (r matches Ok(issued) && {
                &&& old(callers)@.url == Some(issued.url@)
                &&& live is Some ==> live == Some(issued.token@) && final(callers)@ == old(callers)@
                &&& live is None ==> is_caller_token(issued.token@)
                &&& live is None ==> final(callers)@.authorize(issued.token@) == Some(caller@)
                &&& token != issued.token@ ==> final(callers)@.authorize(token) == old(
                    callers,
                )@.authorize(token)
                &&& final(callers)@.live_token(caller.session_uuid@) == Some(issued.token@)
            })
            &&& final(callers)@.url == old(callers)@.url
        }),
{
}

/// To revoke a session ends the token that was issued to it and no other; to
/// revoke all ends every token and takes the URL back.
pub proof fn revocations_end_tokens(
    one: &mut McpCallerRegistry,
    session: &str,
    all: &mut McpCallerRegistry,
    token: Seq<char>,
)
    requires
        call_ensures(McpCallerRegistry::revoke_session, (one, session), ()),
        call_ensures(McpCallerRegistry::revoke_all, (all,), ()),
    ensures
        final(one)@.url == old(one)@.url,
        final(one)@.live_token(session@) is None,
        old(one)@.by_session.contains_pair(session@, token) ==> final(one)@.authorize(token) is None,
        !old(one)@.by_session.contains_pair(session@, token) ==> final(one)@.authorize(token)
            == old(one)@.authorize(token),
        final(all)@.url is None,
        final(all)@.authorize(token) is None,
        final(all)@.by_token.len() == 0,
{
}

} // verus!
