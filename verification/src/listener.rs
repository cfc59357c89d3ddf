//! The listener handle and its published URL.

use crate::registry::{McpCallerRegistry, RegistryView};
use crate::server::MCP_HTTP_PATH;
use vstd::prelude::*;
use vstd::string::StringExecFns;

verus! {

/// The MCP URL of a listener at an address.
pub open spec fn url_at(addr: Seq<char>) -> Seq<char> {
    "http://"@ + addr + MCP_HTTP_PATH@
}

/// The MCP URL of a listener at an address.
pub fn listener_url(addr: &str) -> (r: String)
    ensures
        r@ == url_at(addr@),
{
    let mut url = "http://".to_owned();
    url.append(addr);
    url.append(MCP_HTTP_PATH);
    url
}

/// A shared listener: its URL, and the signal that stops it.
#[derive(Debug)]
pub struct McpHttpListener<T> {
    url: String,
    shutdown: Option<T>,
}

impl<T> McpHttpListener<T> {
    /// The URL of the listener.
    pub closed spec fn spec_url(&self) -> Seq<char> {
        self.url@
    }

    /// The signal that stops the listener, until it is taken.
    pub closed spec fn signal(&self) -> Option<T> {
        self.shutdown
    }

    /// The handle of a listener that is up at an address: publishes its URL for
    /// the callers and keeps the signal that stops it.
    pub fn publish(callers: &mut McpCallerRegistry, addr: &str, shutdown: T) -> (r: McpHttpListener<
        T,
    >)
        ensures
            r.spec_url() == url_at(addr@),
            r.signal() == Some(shutdown),
            final(callers)@ == (RegistryView { url: Some(url_at(addr@)), ..old(callers)@ }),
    {
        let url = listener_url(addr);
        callers.set_url(url.as_str());
        McpHttpListener { url, shutdown: Some(shutdown) }
    }

    /// Shared MCP URL, with the MCP path.
    #[must_use]
    pub fn url(&self) -> (r: &str)
        ensures
            r@ == self.spec_url(),
    {
        self.url.as_str()
    }

    /// Stops accepting connections: gives out the signal to send, the first
    /// time it is called.
    pub fn shutdown(&mut self) -> (r: Option<T>)
        ensures
            r == old(self).signal(),
            final(self).signal() is None,
            final(self).spec_url() == old(self).spec_url(),
    {
        self.shutdown.take()
    }
}

/// The URL of a listener is its address between the scheme and the MCP path.
pub proof fn a_listener_url_names_the_address_and_the_path(addr: &str, url: String)
    requires
        call_ensures(listener_url, (addr,), url),
    ensures
        url@ == "http://"@ + addr@ + "/mcp"@,
        url_at(addr@) == url@,
{
}

/// A listener that is up has its URL published, which is its own, and gives its
/// stop signal out once.
pub proof fn a_listener_publishes_its_own_url<T>(
    callers: &mut McpCallerRegistry,
    addr: &str,
    signal: T,
    listener: McpHttpListener<T>,
    url: &str,
)
    requires
        call_ensures(McpHttpListener::<T>::publish, (callers, addr, signal), listener),
        call_ensures(McpHttpListener::<T>::url, (&listener,), url),
    ensures
        url@ == "http://"@ + addr@ + "/mcp"@,
        final(callers)@.url == Some(url@),
        final(callers)@.by_token == old(callers)@.by_token,
        final(callers)@.by_session == old(callers)@.by_session,
        listener.signal() == Some(signal),
{
}

/// To stop a listener gives the signal out; a second time there is none.
pub proof fn a_signal_is_given_out_once<T>(
    first: &mut McpHttpListener<T>,
    second: &mut McpHttpListener<T>,
    given: Option<T>,
    again: Option<T>,
)
    requires
        call_ensures(McpHttpListener::<T>::shutdown, (first,), given),
        *old(second) == *final(first),
        call_ensures(McpHttpListener::<T>::shutdown, (second,), again),
    ensures
        given == old(first).signal(),
        again is None,
{
}

} // verus!
