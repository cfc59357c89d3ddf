//! Caller identities.

use crate::table::StringTable;
use crate::text::same_text;
use vstd::prelude::*;

verus! {

/// Caller identity bound to one issued credential.
///
/// This is the only identity that a dispatch carries.
#[derive(Debug)]
pub struct McpCaller {
    /// Session UUID of the authorized caller.
    pub session_uuid: String,
    /// Hub identity of the authorized caller.
    pub hub_id: String,
    /// Extra caller context from the session, never another caller.
    pub context: StringTable,
}

/// What a caller identity is.
pub struct CallerView {
    pub session_uuid: Seq<char>,
    pub hub_id: Seq<char>,
    pub context: Map<Seq<char>, Seq<char>>,
}

impl View for McpCaller {
    type V = CallerView;

    open spec fn view(&self) -> CallerView {
        CallerView {
            session_uuid: self.session_uuid@,
            hub_id: self.hub_id@,
            context: self.context@,
        }
    }
}

/// A table with the identity entries of a session and a hub put in.
pub open spec fn with_identity(
    table: Map<Seq<char>, Seq<char>>,
    session_uuid: Seq<char>,
    hub_id: Seq<char>,
) -> Map<Seq<char>, Seq<char>> {
    table.insert("session_uuid"@, session_uuid).insert("hub_id"@, hub_id)
}

impl CallerView {
    /// The identity of a session and a hub, with no other context.
    pub open spec fn of(session_uuid: Seq<char>, hub_id: Seq<char>) -> CallerView {
        CallerView {
            session_uuid,
            hub_id,
            context: with_identity(Map::empty(), session_uuid, hub_id),
        }
    }

    /// What Lua sees of the caller: the context, under the caller's own identity.
    pub open spec fn lua_context(self) -> Map<Seq<char>, Seq<char>> {
        with_identity(self.context, self.session_uuid, self.hub_id)
    }
}

impl McpCaller {
    /// Builds a caller identity from session and hub identifiers.
    #[must_use]
    pub fn new(session_uuid: &str, hub_id: &str) -> (r: McpCaller)
        ensures
            r@ == CallerView::of(session_uuid@, hub_id@),
    {
        let mut context = StringTable::new();
        context.insert("session_uuid".to_owned(), session_uuid.to_owned());
        context.insert("hub_id".to_owned(), hub_id.to_owned());
        McpCaller { session_uuid: session_uuid.to_owned(), hub_id: hub_id.to_owned(), context }
    }

    /// Copies this identity into a table for the Lua MCP context.
    #[must_use]
    pub fn lua_context(&self) -> (r: StringTable)
        ensures
            r@ == self@.lua_context(),
    {
        let mut table = self.context.clone();
        table.insert("session_uuid".to_owned(), self.session_uuid.clone());
        table.insert("hub_id".to_owned(), self.hub_id.clone());
        table
    }
}

impl Clone for McpCaller {
    fn clone(&self) -> (r: Self)
        ensures
            r@ == self@,
    {
        McpCaller {
            session_uuid: self.session_uuid.clone(),
            hub_id: self.hub_id.clone(),
            context: self.context.clone(),
        }
    }
}

impl vstd::std_specs::cmp::PartialEqSpecImpl for McpCaller {
    open spec fn obeys_eq_spec() -> bool {
        true
    }

    open spec fn eq_spec(&self, other: &McpCaller) -> bool {
        self@ == other@
    }
}

impl PartialEq for McpCaller {
    fn eq(&self, other: &McpCaller) -> (r: bool) {
        same_text(self.session_uuid.as_str(), other.session_uuid.as_str()) && same_text(
            self.hub_id.as_str(),
            other.hub_id.as_str(),
        ) && self.context.same(&other.context)
    }
}

impl Eq for McpCaller {

}

/// Whatever the context of a caller holds, Lua sees the caller's own session
/// and hub, and every other entry of the context as it is.
pub proof fn lua_sees_the_callers_own_identity(caller: CallerView, name: Seq<char>)
    ensures
        caller.lua_context()["session_uuid"@] == caller.session_uuid,
        caller.lua_context()["hub_id"@] == caller.hub_id,
        caller.lua_context().contains_key("session_uuid"@),
        caller.lua_context().contains_key("hub_id"@),
        name != "session_uuid"@ && name != "hub_id"@ ==> {
            &&& caller.lua_context().contains_key(name) == caller.context.contains_key(name)
            &&& caller.context.contains_key(name) ==> caller.lua_context()[name]
                == caller.context[name]
        },
{
    reveal_strlit("session_uuid");
    reveal_strlit("hub_id");
    assert("session_uuid"@.len() != "hub_id"@.len());
}

/// A new caller has the session and the hub that it was made of, and a context
/// that names these two and nothing else.
pub proof fn a_new_caller_is_its_session_and_hub(
    session_uuid: &str,
    hub_id: &str,
    caller: McpCaller,
    name: Seq<char>,
)
    requires
        call_ensures(McpCaller::new, (session_uuid, hub_id), caller),
    ensures
        caller.session_uuid@ == session_uuid@,
        caller.hub_id@ == hub_id@,
        caller.context@.contains_key("session_uuid"@),
        caller.context@["session_uuid"@] == session_uuid@,
        caller.context@.contains_key("hub_id"@),
        caller.context@["hub_id"@] == hub_id@,
        caller.context@.contains_key(name) ==> name == "session_uuid"@ || name == "hub_id"@,
{
    reveal_strlit("session_uuid");
    reveal_strlit("hub_id");
    assert("session_uuid"@.len() != "hub_id"@.len());
}

/// What Lua is given of a caller is the caller's own session and hub, and every
/// other entry of its context as it is.
pub proof fn lua_is_given_the_callers_own_context(
    caller: &McpCaller,
    table: StringTable,
    name: Seq<char>,
)
    requires
        call_ensures(McpCaller::lua_context, (caller,), table),
    ensures
        table@.contains_key("session_uuid"@) && table@["session_uuid"@] == caller.session_uuid@,
        table@.contains_key("hub_id"@) && table@["hub_id"@] == caller.hub_id@,
        name != "session_uuid"@ && name != "hub_id"@ ==> {
            &&& table@.contains_key(name) <==> caller.context@.contains_key(name)
            &&& caller.context@.contains_key(name) ==> table@[name] == caller.context@[name]
        },
{
    lua_sees_the_callers_own_identity(caller@, name);
}

/// Two callers are `==` exactly where session, hub and context are.
pub proof fn callers_are_equal_by_identity_and_context(a: McpCaller, b: McpCaller)
    ensures
        vstd::std_specs::cmp::PartialEqSpec::eq_spec(&a, &b) <==> {
            &&& a.session_uuid@ == b.session_uuid@
            &&& a.hub_id@ == b.hub_id@
            &&& a.context@ == b.context@
        },
{
}

/// A copy of a caller is that caller.
pub proof fn a_copied_caller_is_the_same(caller: &McpCaller, copy: McpCaller)
    requires
        call_ensures(McpCaller::clone, (caller,), copy),
    ensures
        copy.session_uuid@ == caller.session_uuid@,
        copy.hub_id@ == caller.hub_id@,
        copy.context@ == caller.context@,
{
}

} // verus!
