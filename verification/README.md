# mcp_http

A shared Streamable HTTP MCP server whose decisions are verified with Verus.

One localhost listener serves every agent session at `/mcp`. A session gets a
URL and a bearer token (`BOTSTER_MCP_URL`, `BOTSTER_MCP_TOKEN`); each request is
answered for the caller behind its token and for nobody else.

- `src/` is the library: caller credentials, routing, JSON-RPC handling, Lua
  dispatch, notifications and the stdio proxy, as functions from plain values to
  plain values with proved contracts. The laws that span functions stand beside
  them as public proof functions.
- `app/` is ordinary Rust around it: sockets, channels, timeouts and the Lua
  state.
- `tests/` runs the library on concrete values.
