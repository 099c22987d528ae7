//! The gateway's routers: the full standalone gateway (`create_router`), the
//! bare MCP protocol surface for embedding (`mcp_protocol_router`), and the
//! decorators that put the gateway's authentication in front of a router
//! (`with_auth`, `with_agent_auth`).

use std::sync::Arc;

use vstd::prelude::*;

use crate::middleware::{AgentAuthState, AuthState, Layer};
use crate::route_table::{
    apply_layer, EndpointView, Handler, Method, MountedRouter, RoutePath, RouteTable,
};

verus! {

/// Optional parts of the standalone gateway.
#[derive(Clone, Copy, PartialEq, Eq, Structural, Debug)]
pub struct GatewayFeatures {
    /// Web UI: its API routes sit behind authentication, its HTML page does not.
    pub webui: bool,
    /// Prometheus `/metrics` scrape endpoint (unauthenticated).
    pub metrics: bool,
}

/// Shared application state, as far as the routers read it.
pub struct AppState {
    /// Whether Meta-MCP is enabled.
    pub meta_mcp_enabled: bool,
    /// Whether a key server for OIDC-issued temporary tokens is configured.
    pub key_server_enabled: bool,
    /// Agent auth state (agent-scoped JWT permissions).
    pub agent_auth: AgentAuthState,
    /// Whether input sanitization is enabled.
    pub sanitize_input: bool,
    /// Whether SSRF protection is enabled for outbound URLs.
    pub ssrf_protection: bool,
    /// Configured capability directories; empty when the capability system
    /// is disabled.
    pub capability_dirs: Vec<String>,
    /// Path to the gateway config file on disk, when there is one.
    pub config_path: Option<String>,
    /// Optional parts of the standalone gateway.
    pub features: GatewayFeatures,
}

/// A route before any layer: path, method, handler.
pub type RouteSpec = (RoutePath, Method, Handler);

/// The routes of `s`, each wrapped in `layers`.
pub open spec fn with_layers(s: Seq<RouteSpec>, layers: Seq<Layer>) -> Seq<EndpointView> {
    Seq::new(s.len(), |i: int| (s[i].0, s[i].1, s[i].2, layers))
}

/// The MCP protocol surface: `POST`, `GET` and `DELETE /mcp`,
/// `POST /mcp/{name}` and `POST /mcp/{name}/{*path}`.
pub open spec fn protocol_surface() -> Seq<RouteSpec> {
    seq![
        (RoutePath::Mcp, Method::Post, Handler::MetaMcp),
        (RoutePath::Mcp, Method::Get, Handler::McpSse),
        (RoutePath::Mcp, Method::Delete, Handler::McpDelete),
        (RoutePath::McpServer, Method::Post, Handler::Backend),
        (RoutePath::McpServerPath, Method::Post, Handler::Backend),
    ]
}

/// The routes of the standalone gateway that sit behind its authentication:
/// health, costs, the protocol surface, the deprecated `/sse` endpoint, and
/// the web UI API when the web UI is on.
pub open spec fn gateway_surface(f: GatewayFeatures) -> Seq<RouteSpec> {
    seq![
        (RoutePath::Health, Method::Get, Handler::Health),
        (RoutePath::ApiCosts, Method::Get, Handler::Costs),
    ] + protocol_surface() + seq![
        (RoutePath::Sse, Method::Get, Handler::SseDeprecated),
        (RoutePath::Sse, Method::Post, Handler::SseDeprecated),
    ] + if f.webui {
        seq![
            (
                RoutePath::Mounted(MountedRouter::WebUiApi),
                Method::Any,
                Handler::Mounted(MountedRouter::WebUiApi),
            ),
        ]
    } else {
        Seq::empty()
    }
}

/// The routes of the standalone gateway outside its authentication: the key
/// server (when configured), the JWKS endpoint, `/metrics` and the web UI
/// page (when those features are on).
pub open spec fn public_surface(s: AppState) -> Seq<RouteSpec> {
    (if s.key_server_enabled {
        seq![
            (
                RoutePath::Mounted(MountedRouter::KeyServer),
                Method::Any,
                Handler::Mounted(MountedRouter::KeyServer),
            ),
        ]
    } else {
        Seq::empty()
    }) + seq![(RoutePath::Jwks, Method::Get, Handler::Jwks)] + (if s.features.metrics {
        seq![(RoutePath::Metrics, Method::Get, Handler::Metrics)]
    } else {
        Seq::empty()
    }) + (if s.features.webui {
        seq![
            (
                RoutePath::Mounted(MountedRouter::WebUiHtml),
                Method::Any,
                Handler::Mounted(MountedRouter::WebUiHtml),
            ),
        ]
    } else {
        Seq::empty()
    })
}

/// The authentication state that the gateway derives from its app state.
pub open spec fn auth_state_of(s: AppState) -> AuthState {
    AuthState { key_server_enabled: s.key_server_enabled }
}

/// The layers around the gateway's authenticated routes, innermost first:
/// agent auth, auth, panic catching, compression, tracing.
pub open spec fn gateway_stack(s: AppState) -> Seq<Layer> {
    seq![
        Layer::AgentAuth(s.agent_auth),
        Layer::Auth(auth_state_of(s)),
        Layer::CatchPanic,
        Layer::Compression,
        Layer::Trace,
    ]
}

/// Everything the standalone gateway serves.
pub open spec fn gateway_table(s: AppState) -> Seq<EndpointView> {
    with_layers(gateway_surface(s.features), gateway_stack(s)) + with_layers(
        public_surface(s),
        Seq::empty(),
    )
}

/// Everything the embedding router serves: the protocol surface, unwrapped.
pub open spec fn protocol_table() -> Seq<EndpointView> {
    with_layers(protocol_surface(), Seq::empty())
}

/// A path that lies under `/mcp` (the path itself or below it).
pub open spec fn is_mcp_path(p: RoutePath) -> bool {
    let t = p.path_text();
    t == "/mcp"@ || (t.len() > 5 && t.take(5) == "/mcp/"@)
}

/// Wrapping routes that all carry `layers` in `l` is the same as giving them
/// `layers` followed by `l`.
proof fn lemma_apply_layer_with_layers(s: Seq<RouteSpec>, layers: Seq<Layer>, l: Layer)
    ensures
        apply_layer(with_layers(s, layers), l) == with_layers(s, layers.push(l)),
{
    assert(apply_layer(with_layers(s, layers), l) =~= with_layers(s, layers.push(l)));
}

/// Builds the standalone gateway's router: health, costs, the MCP protocol
/// surface and the deprecated `/sse` endpoint (plus the web UI API) behind
/// agent auth, auth, panic catching, compression and tracing; then, without
/// any of those layers, the key-server routes (when configured), the JWKS
/// endpoint, `/metrics` and the web UI page (when on).
pub fn create_router(state: Arc<AppState>) -> (r: RouteTable)
    ensures
        r@ == gateway_table(*state),
{
    let auth_state = AuthState { key_server_enabled: state.key_server_enabled };
    let agent_auth_state = state.agent_auth;

    let routes = RouteTable::new().route(RoutePath::Health, Method::Get, Handler::Health);
    let routes = routes.route(RoutePath::ApiCosts, Method::Get, Handler::Costs);
    let routes = routes.route(RoutePath::Mcp, Method::Post, Handler::MetaMcp);
    let routes = routes.route(RoutePath::Mcp, Method::Get, Handler::McpSse);
    let routes = routes.route(RoutePath::Mcp, Method::Delete, Handler::McpDelete);
    let routes = routes.route(RoutePath::McpServer, Method::Post, Handler::Backend);
    let routes = routes.route(RoutePath::McpServerPath, Method::Post, Handler::Backend);
    let routes = routes.route(RoutePath::Sse, Method::Get, Handler::SseDeprecated);
    let mut routes = routes.route(RoutePath::Sse, Method::Post, Handler::SseDeprecated);
    assert(routes@ =~= with_layers(gateway_surface(GatewayFeatures { webui: false, metrics: state.features.metrics }), Seq::empty()));

    if state.features.webui {
        routes = routes.merge(RouteTable::mounted(MountedRouter::WebUiApi));
    }
    assert(routes@ =~= with_layers(gateway_surface(state.features), Seq::empty()));

    let ghost surface = gateway_surface(state.features);
    proof {
        let l0 = Seq::<Layer>::empty();
        lemma_apply_layer_with_layers(surface, l0, Layer::AgentAuth(agent_auth_state));
        let l1 = l0.push(Layer::AgentAuth(agent_auth_state));
        lemma_apply_layer_with_layers(surface, l1, Layer::Auth(auth_state));
        let l2 = l1.push(Layer::Auth(auth_state));
        lemma_apply_layer_with_layers(surface, l2, Layer::CatchPanic);
        let l3 = l2.push(Layer::CatchPanic);
        lemma_apply_layer_with_layers(surface, l3, Layer::Compression);
        let l4 = l3.push(Layer::Compression);
        lemma_apply_layer_with_layers(surface, l4, Layer::Trace);
        assert(l4.push(Layer::Trace) =~= gateway_stack(*state));
    }
    let app = routes.layer(Layer::AgentAuth(agent_auth_state));
    let app = app.layer(Layer::Auth(auth_state));
    let app = app.layer(Layer::CatchPanic);
    let app = app.layer(Layer::Compression);
    let mut app = app.layer(Layer::Trace);
    assert(app@ =~= with_layers(gateway_surface(state.features), gateway_stack(*state)));
    let ghost authenticated = app@;

    if state.key_server_enabled {
        app = app.merge(RouteTable::mounted(MountedRouter::KeyServer));
    }
    let jwks_route = RouteTable::new().route(RoutePath::Jwks, Method::Get, Handler::Jwks);
    app = app.merge(jwks_route);
    if state.features.metrics {
        let metrics_route = RouteTable::new().route(RoutePath::Metrics, Method::Get, Handler::Metrics);
        app = app.merge(metrics_route);
    }
    if state.features.webui {
        app = app.merge(RouteTable::mounted(MountedRouter::WebUiHtml));
    }
    assert(app@ =~= authenticated + with_layers(public_surface(*state), Seq::empty()));
    app
}

/// Builds a router that serves only the MCP protocol surface (`POST`,
/// `GET`, `DELETE /mcp`, `POST /mcp/{name}`, `POST /mcp/{name}/{*path}`),
/// with no middleware layer and no management route.
pub fn mcp_protocol_router(state: Arc<AppState>) -> (r: RouteTable)
    ensures
        r@ == protocol_table(),
{
    let routes = RouteTable::new().route(RoutePath::Mcp, Method::Post, Handler::MetaMcp);
    let routes = routes.route(RoutePath::Mcp, Method::Get, Handler::McpSse);
    let routes = routes.route(RoutePath::Mcp, Method::Delete, Handler::McpDelete);
    let routes = routes.route(RoutePath::McpServer, Method::Post, Handler::Backend);
    let routes = routes.route(RoutePath::McpServerPath, Method::Post, Handler::Backend);
    assert(routes@ =~= protocol_table());
    routes
}

/// Wraps every route of `router` in the bearer-token / API-key
/// authentication middleware; it becomes the outermost layer, so it sees
/// each request before any layer applied earlier.
pub fn with_auth(router: RouteTable, state: AuthState) -> (r: RouteTable)
    ensures
        r@ == apply_layer(router@, Layer::Auth(state)),
{
    router.layer(Layer::Auth(state))
}

/// Wraps every route of `router` in the agent-JWT middleware; it becomes
/// the outermost layer, so it sees each request before any layer applied
/// earlier.
pub fn with_agent_auth(router: RouteTable, state: AgentAuthState) -> (r: RouteTable)
    ensures
        r@ == apply_layer(router@, Layer::AgentAuth(state)),
{
    router.layer(Layer::AgentAuth(state))
}

} // verus!
