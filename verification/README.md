# mcp_gateway routing

The gateway's routers described as verified route tables.

- `src/route_table.rs` — a router as a table of endpoints (path, method,
  handler, layers) with `route`, `layer`, `merge`, `mounted`.
- `src/middleware.rs` — the layers and the state they carry.
- `src/gateway.rs` — `create_router` (the standalone gateway),
  `mcp_protocol_router` (the MCP surface alone, for embedding), `with_auth`,
  `with_agent_auth`, each with an exact contract over its table.
- `src/laws.rs` — properties proved for every input: the embedding surface
  is exactly the `/mcp` part of the gateway, the last layer applied runs
  first, the gateway's authentication coverage.
- `src/logging.rs` — the choice of log output format.
- `app/lib.rs` — turns a route table into an `axum::Router` and installs
  the tracing subscriber.
