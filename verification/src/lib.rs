//! The decisions of a shared Streamable HTTP MCP server.
//!
//! One localhost listener serves every agent session. Each caller presents a
//! bearer token; the server authorizes that token, then dispatches MCP methods
//! with that caller's identity alone. Callers share no session, hub identity,
//! context or tools.
//!
//! The library decides; sockets, channels and the Lua state stand outside and
//! hand it plain values:
//!
//! - [`registry`], [`token`] and [`caller`]: credentials and identities;
//! - [`headers`], [`server`], [`dispatch`] and [`response`]: what a request is
//!   answered;
//! - [`lua`]: what a method calls on the Lua side, and what Lua may ask;
//! - [`fanout`]: list-changed notifications;
//! - [`listener`] and [`proxy`]: the published URL and the stdio proxy;
//! - [`json`], [`table`] and [`text`]: the values all of it works on.

pub mod caller;
pub mod dispatch;
pub mod fanout;
pub mod headers;
pub mod json;
pub mod listener;
pub mod lua;
pub mod proxy;
pub mod registry;
pub mod response;
pub mod server;
pub mod table;
pub mod text;
pub mod token;
