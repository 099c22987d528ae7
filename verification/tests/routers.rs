use std::sync::Arc;

use mcp_gateway::gateway::{
    create_router, mcp_protocol_router, with_agent_auth, with_auth, AppState, GatewayFeatures,
};
use mcp_gateway::middleware::{AgentAuthState, AuthState, Layer};
use mcp_gateway::route_table::{Handler, Method, MountedRouter, RoutePath, RouteTable};

fn state(key_server: bool, webui: bool, metrics: bool) -> Arc<AppState> {
    Arc::new(AppState {
        meta_mcp_enabled: true,
        key_server_enabled: key_server,
        agent_auth: AgentAuthState { enabled: true },
        sanitize_input: true,
        ssrf_protection: true,
        capability_dirs: Vec::new(),
        config_path: None,
        features: GatewayFeatures { webui, metrics },
    })
}

fn routes(t: &RouteTable) -> Vec<(RoutePath, Method, Handler, Vec<Layer>)> {
    (0..t.len())
        .map(|i| {
            let e = t.endpoint(i);
            (e.path, e.method, e.handler, e.layers.clone())
        })
        .collect()
}

fn gateway_stack(key_server: bool) -> Vec<Layer> {
    vec![
        Layer::AgentAuth(AgentAuthState { enabled: true }),
        Layer::Auth(AuthState { key_server_enabled: key_server }),
        Layer::CatchPanic,
        Layer::Compression,
        Layer::Trace,
    ]
}

#[test]
fn protocol_router_serves_exactly_the_mcp_surface() {
    let t = mcp_protocol_router(state(true, true, true));
    assert_eq!(
        routes(&t),
        vec![
            (RoutePath::Mcp, Method::Post, Handler::MetaMcp, vec![]),
            (RoutePath::Mcp, Method::Get, Handler::McpSse, vec![]),
            (RoutePath::Mcp, Method::Delete, Handler::McpDelete, vec![]),
            (RoutePath::McpServer, Method::Post, Handler::Backend, vec![]),
            (RoutePath::McpServerPath, Method::Post, Handler::Backend, vec![]),
        ]
    );
    assert!(!t.serves(RoutePath::Health, Method::Get));
    assert!(!t.serves(RoutePath::ApiCosts, Method::Get));
    assert!(!t.serves(RoutePath::Sse, Method::Get));
    assert!(!t.serves(RoutePath::Jwks, Method::Get));
    assert!(!t.serves(RoutePath::Metrics, Method::Get));
    assert!(!t.serves(RoutePath::Mounted(MountedRouter::KeyServer), Method::Any));
}

#[test]
fn protocol_router_paths_lie_under_mcp() {
    let t = mcp_protocol_router(state(false, false, false));
    for i in 0..t.len() {
        let path = t.endpoint(i).path.text().unwrap();
        assert!(path == "/mcp" || path.starts_with("/mcp/"), "{path}");
    }
}

#[test]
fn gateway_minimal_configuration() {
    let t = create_router(state(false, false, false));
    let stack = gateway_stack(false);
    assert_eq!(
        routes(&t),
        vec![
            (RoutePath::Health, Method::Get, Handler::Health, stack.clone()),
            (RoutePath::ApiCosts, Method::Get, Handler::Costs, stack.clone()),
            (RoutePath::Mcp, Method::Post, Handler::MetaMcp, stack.clone()),
            (RoutePath::Mcp, Method::Get, Handler::McpSse, stack.clone()),
            (RoutePath::Mcp, Method::Delete, Handler::McpDelete, stack.clone()),
            (RoutePath::McpServer, Method::Post, Handler::Backend, stack.clone()),
            (RoutePath::McpServerPath, Method::Post, Handler::Backend, stack.clone()),
            (RoutePath::Sse, Method::Get, Handler::SseDeprecated, stack.clone()),
            (RoutePath::Sse, Method::Post, Handler::SseDeprecated, stack.clone()),
            (RoutePath::Jwks, Method::Get, Handler::Jwks, vec![]),
        ]
    );
}

#[test]
fn gateway_full_configuration() {
    let t = create_router(state(true, true, true));
    let stack = gateway_stack(true);
    let r = routes(&t);
    assert_eq!(r.len(), 14);
    assert_eq!(
        r[9],
        (
            RoutePath::Mounted(MountedRouter::WebUiApi),
            Method::Any,
            Handler::Mounted(MountedRouter::WebUiApi),
            stack.clone()
        )
    );
    assert_eq!(
        r[10],
        (
            RoutePath::Mounted(MountedRouter::KeyServer),
            Method::Any,
            Handler::Mounted(MountedRouter::KeyServer),
            vec![]
        )
    );
    assert_eq!(r[11], (RoutePath::Jwks, Method::Get, Handler::Jwks, vec![]));
    assert_eq!(r[12], (RoutePath::Metrics, Method::Get, Handler::Metrics, vec![]));
    assert_eq!(
        r[13],
        (
            RoutePath::Mounted(MountedRouter::WebUiHtml),
            Method::Any,
            Handler::Mounted(MountedRouter::WebUiHtml),
            vec![]
        )
    );
    for e in &r[..9] {
        assert_eq!(e.3, stack);
    }
}

#[test]
fn gateway_key_server_only_when_configured() {
    let with_ks = create_router(state(true, false, false));
    let without_ks = create_router(state(false, false, false));
    let ks = RoutePath::Mounted(MountedRouter::KeyServer);
    assert!(with_ks.serves(ks, Method::Any));
    assert!(!without_ks.serves(ks, Method::Any));
    assert!(with_ks.serves(RoutePath::Jwks, Method::Get));
    assert!(without_ks.serves(RoutePath::Jwks, Method::Get));
    assert!(!without_ks.serves(RoutePath::Metrics, Method::Get));
}

#[test]
fn gateway_auth_layer_carries_key_server_setting() {
    let t = create_router(state(true, false, false));
    assert_eq!(
        t.endpoint(0).layers[1],
        Layer::Auth(AuthState { key_server_enabled: true })
    );
    let t = create_router(state(false, false, false));
    assert_eq!(
        t.endpoint(0).layers[1],
        Layer::Auth(AuthState { key_server_enabled: false })
    );
}

#[test]
fn embedding_is_the_mcp_part_of_the_gateway() {
    let s = state(true, true, true);
    let embedded = routes(&mcp_protocol_router(s.clone()));
    let gateway = routes(&create_router(s));
    let under_mcp: Vec<_> = gateway
        .iter()
        .filter(|e| matches!(e.0.text(), Some(p) if p == "/mcp" || p.starts_with("/mcp/")))
        .map(|e| (e.0, e.1, e.2))
        .collect();
    let embedded_routes: Vec<_> = embedded.iter().map(|e| (e.0, e.1, e.2)).collect();
    assert_eq!(embedded_routes, under_mcp);
}

#[test]
fn with_auth_adds_outermost_layer_and_keeps_routes() {
    let auth = AuthState { key_server_enabled: false };
    let before = routes(&mcp_protocol_router(state(false, false, false)));
    let after = routes(&with_auth(mcp_protocol_router(state(false, false, false)), auth));
    assert_eq!(before.len(), after.len());
    for (b, a) in before.iter().zip(after.iter()) {
        assert_eq!((b.0, b.1, b.2), (a.0, a.1, a.2));
        assert_eq!(a.3, vec![Layer::Auth(auth)]);
    }
}

#[test]
fn with_agent_auth_adds_outermost_layer() {
    let agent = AgentAuthState { enabled: false };
    let t = with_agent_auth(mcp_protocol_router(state(false, false, false)), agent);
    for i in 0..t.len() {
        assert_eq!(t.endpoint(i).layers, vec![Layer::AgentAuth(agent)]);
    }
}

#[test]
fn nesting_decides_which_auth_runs_first() {
    let auth = AuthState { key_server_enabled: false };
    let agent = AgentAuthState { enabled: true };
    let s = state(false, false, false);

    // Layers are listed innermost first; the last one sees the request first.
    let agent_outside = with_agent_auth(with_auth(mcp_protocol_router(s.clone()), auth), agent);
    assert_eq!(
        agent_outside.endpoint(0).layers,
        vec![Layer::Auth(auth), Layer::AgentAuth(agent)]
    );

    let auth_outside = with_auth(with_agent_auth(mcp_protocol_router(s.clone()), agent), auth);
    assert_eq!(
        auth_outside.endpoint(0).layers,
        vec![Layer::AgentAuth(agent), Layer::Auth(auth)]
    );

    // The gateway's own order: agent auth inside auth.
    let gateway = create_router(s);
    assert_eq!(gateway.endpoint(2).layers[..2], auth_outside.endpoint(0).layers[..]);
}

#[test]
fn layer_compose_in_gateway_order() {
    let auth = AuthState { key_server_enabled: true };
    let agent = AgentAuthState { enabled: true };
    let t = mcp_protocol_router(state(true, false, false))
        .layer(Layer::AgentAuth(agent))
        .layer(Layer::Auth(auth));
    for i in 0..t.len() {
        assert_eq!(t.endpoint(i).layers, vec![Layer::AgentAuth(agent), Layer::Auth(auth)]);
    }
}

#[test]
fn layer_only_wraps_existing_routes() {
    let t = RouteTable::new()
        .route(RoutePath::Health, Method::Get, Handler::Health)
        .layer(Layer::Trace)
        .route(RoutePath::Metrics, Method::Get, Handler::Metrics);
    assert_eq!(t.endpoint(0).layers, vec![Layer::Trace]);
    assert!(t.endpoint(1).layers.is_empty());
}

#[test]
fn merge_keeps_each_side_and_its_layers() {
    let a = RouteTable::new()
        .route(RoutePath::Health, Method::Get, Handler::Health)
        .layer(Layer::Compression);
    let b = RouteTable::mounted(MountedRouter::KeyServer);
    let t = a.merge(b);
    assert_eq!(t.len(), 2);
    assert_eq!(t.endpoint(0).layers, vec![Layer::Compression]);
    assert_eq!(t.endpoint(1).path, RoutePath::Mounted(MountedRouter::KeyServer));
    assert!(t.endpoint(1).layers.is_empty());
}

#[test]
fn same_path_different_methods() {
    let t = RouteTable::new()
        .route(RoutePath::Sse, Method::Get, Handler::SseDeprecated)
        .route(RoutePath::Sse, Method::Post, Handler::SseDeprecated);
    assert!(t.serves(RoutePath::Sse, Method::Get));
    assert!(t.serves(RoutePath::Sse, Method::Post));
    assert!(!t.serves(RoutePath::Sse, Method::Delete));
}

#[test]
fn path_texts() {
    assert_eq!(RoutePath::Health.text(), Some("/health"));
    assert_eq!(RoutePath::ApiCosts.text(), Some("/api/costs"));
    assert_eq!(RoutePath::Mcp.text(), Some("/mcp"));
    assert_eq!(RoutePath::McpServer.text(), Some("/mcp/{name}"));
    assert_eq!(RoutePath::McpServerPath.text(), Some("/mcp/{name}/{*path}"));
    assert_eq!(RoutePath::Sse.text(), Some("/sse"));
    assert_eq!(RoutePath::Jwks.text(), Some("/.well-known/jwks.json"));
    assert_eq!(RoutePath::Metrics.text(), Some("/metrics"));
    assert_eq!(RoutePath::Mounted(MountedRouter::WebUiHtml).text(), None);
}
