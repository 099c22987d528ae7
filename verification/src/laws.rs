//! Properties of the routers that hold for every input.

use vstd::prelude::*;

use crate::gateway::{
    auth_state_of, gateway_stack, gateway_surface, gateway_table, is_mcp_path, protocol_surface,
    protocol_table, public_surface, AppState,
};
use crate::middleware::Layer;
use crate::route_table::{
    apply_layer, request_order, serves, serves_with, EndpointView, Handler, Method, MountedRouter,
    RoutePath,
};

verus! {

/// Wrapping a router in a layer changes no route: it serves the same
/// handlers on the same paths and methods, and each endpoint gains `l` as
/// its outermost layer.
pub proof fn layer_keeps_routes(t: Seq<EndpointView>, l: Layer)
    ensures
        apply_layer(t, l).len() == t.len(),
        forall|i: int|
            0 <= i < t.len() ==> {
                let e = #[trigger] apply_layer(t, l)[i];
                e.0 == t[i].0 && e.1 == t[i].1 && e.2 == t[i].2 && e.3 == t[i].3.push(l)
            },
        forall|p: RoutePath, m: Method, h: Handler|
            #[trigger] serves_with(apply_layer(t, l), p, m, h) <==> serves_with(t, p, m, h),
{
    let u = apply_layer(t, l);
    assert forall|p: RoutePath, m: Method, h: Handler|
        #[trigger] serves_with(u, p, m, h) <==> serves_with(t, p, m, h) by {
        if serves_with(u, p, m, h) {
            let i = choose|i: int| 0 <= i < u.len() && (#[trigger] u[i]).0 == p && u[i].1 == m && u[i].2 == h;
            assert(t[i].0 == p && t[i].1 == m && t[i].2 == h);
        }
        if serves_with(t, p, m, h) {
            let i = choose|i: int| 0 <= i < t.len() && (#[trigger] t[i]).0 == p && t[i].1 == m && t[i].2 == h;
            assert(u[i].0 == p && u[i].1 == m && u[i].2 == h);
        }
    }
}

/// The layer applied last sees a request first: after wrapping in `a` and
/// then in `b`, every endpoint's request passes `b`, then `a`, then the
/// layers it had before.
pub proof fn last_layer_runs_first(t: Seq<EndpointView>, a: Layer, b: Layer)
    ensures
        forall|i: int|
            0 <= i < t.len() ==> request_order(
                (#[trigger] apply_layer(apply_layer(t, a), b)[i]).3,
            ) == seq![b, a] + request_order(t[i].3),
{
    assert forall|i: int| 0 <= i < t.len() implies request_order(
        (#[trigger] apply_layer(apply_layer(t, a), b)[i]).3,
    ) == seq![b, a] + request_order(t[i].3) by {
        let s = t[i].3;
        assert(apply_layer(apply_layer(t, a), b)[i].3 == s.push(a).push(b));
        assert(s.push(a).push(b).reverse() =~= seq![b, a] + s.reverse());
    }
}

/// Layering a merged router wraps both parts alike.
pub proof fn layer_distributes_over_merge(a: Seq<EndpointView>, b: Seq<EndpointView>, l: Layer)
    ensures
        apply_layer(a + b, l) == apply_layer(a, l) + apply_layer(b, l),
{
    assert(apply_layer(a + b, l) =~= apply_layer(a, l) + apply_layer(b, l));
}

/// Which of the gateway's paths lie under `/mcp`.
pub proof fn mcp_paths()
    ensures
        is_mcp_path(RoutePath::Mcp),
        is_mcp_path(RoutePath::McpServer),
        is_mcp_path(RoutePath::McpServerPath),
        !is_mcp_path(RoutePath::Health),
        !is_mcp_path(RoutePath::ApiCosts),
        !is_mcp_path(RoutePath::Sse),
        !is_mcp_path(RoutePath::Jwks),
        !is_mcp_path(RoutePath::Metrics),
        forall|m: MountedRouter| !#[trigger] is_mcp_path(RoutePath::Mounted(m)),
{
    reveal_strlit("/health");
    reveal_strlit("/api/costs");
    reveal_strlit("/mcp");
    reveal_strlit("/mcp/");
    reveal_strlit("/mcp/{name}");
    reveal_strlit("/mcp/{name}/{*path}");
    reveal_strlit("/sse");
    reveal_strlit("/.well-known/jwks.json");
    reveal_strlit("/metrics");
    assert("/mcp/{name}"@.take(5) =~= "/mcp/"@);
    assert("/mcp/{name}/{*path}"@.take(5) =~= "/mcp/"@);
    assert("/api/costs"@.take(5)[1] != "/mcp/"@[1]);
    assert("/sse"@[1] != "/mcp"@[1]);
    assert("/.well-known/jwks.json"@.take(5)[1] != "/mcp/"@[1]);
    assert("/metrics"@.take(5)[2] != "/mcp/"@[2]);
    assert("/metrics"@[2] != "/mcp"@[2]);
    assert forall|m: MountedRouter| !#[trigger] is_mcp_path(RoutePath::Mounted(m)) by {
        assert(RoutePath::Mounted(m).path_text().len() == 0);
    }
}

/// The embedding router is exactly the MCP protocol part of the standalone
/// gateway: it serves a handler on a path and method if and only if the
/// gateway serves that handler there and the path lies under `/mcp`. So
/// nothing of the gateway's management surface reaches a host that mounts
/// it, and no protocol route is missing.
pub proof fn embedding_is_protocol_part_of_gateway(s: AppState)
    ensures
        forall|p: RoutePath, m: Method, h: Handler|
            #[trigger] serves_with(protocol_table(), p, m, h) <==> (serves_with(
                gateway_table(s),
                p,
                m,
                h,
            ) && is_mcp_path(p)),
{
    mcp_paths();
    let e = protocol_table();
    let g = gateway_table(s);
    let n: int = gateway_surface(s.features).len() as int;
    assert forall|p: RoutePath, m: Method, h: Handler|
        #[trigger] serves_with(e, p, m, h) <==> (serves_with(g, p, m, h) && is_mcp_path(p)) by {
        if serves_with(e, p, m, h) {
            let i = choose|i: int| 0 <= i < e.len() && (#[trigger] e[i]).0 == p && e[i].1 == m && e[i].2 == h;
            assert(g[i + 2] == (e[i].0, e[i].1, e[i].2, gateway_stack(s)));
            assert(is_mcp_path(p));
        }
        if serves_with(g, p, m, h) && is_mcp_path(p) {
            let j = choose|j: int| 0 <= j < g.len() && (#[trigger] g[j]).0 == p && g[j].1 == m && g[j].2 == h;
            if j < n {
                assert(gateway_surface(s.features)[j] == (p, m, h));
                assert(2 <= j < 7);
                assert(e[j - 2].0 == p && e[j - 2].1 == m && e[j - 2].2 == h);
            } else {
                assert(public_surface(s)[j - n] == (p, m, h));
                assert(!is_mcp_path(p));
            }
        }
    }
}

/// A host that wraps the embedding router first in agent auth and then in
/// auth runs, on every protocol route, the same authentication chain as the
/// standalone gateway, in the same order (auth, then agent auth, then the
/// handler); the gateway only adds tracing, compression and panic catching
/// in front of it.
pub proof fn auth_then_agent_auth_matches_gateway(s: AppState)
    ensures
        ({
            let hosted = apply_layer(
                apply_layer(protocol_table(), Layer::AgentAuth(s.agent_auth)),
                Layer::Auth(auth_state_of(s)),
            );
            let g = gateway_table(s);
            &&& hosted.len() == protocol_surface().len()
            &&& forall|k: int|
                0 <= k < hosted.len() ==> {
                    &&& (#[trigger] hosted[k]).0 == g[k + 2].0
                    &&& hosted[k].1 == g[k + 2].1
                    &&& hosted[k].2 == g[k + 2].2
                    &&& request_order(hosted[k].3) == seq![
                        Layer::Auth(auth_state_of(s)),
                        Layer::AgentAuth(s.agent_auth),
                    ]
                    &&& request_order(g[k + 2].3) == seq![
                        Layer::Trace,
                        Layer::Compression,
                        Layer::CatchPanic,
                    ] + request_order(hosted[k].3)
                }
        }),
{
    let hosted = apply_layer(
        apply_layer(protocol_table(), Layer::AgentAuth(s.agent_auth)),
        Layer::Auth(auth_state_of(s)),
    );
    let g = gateway_table(s);
    let inner = seq![Layer::AgentAuth(s.agent_auth), Layer::Auth(auth_state_of(s))];
    assert forall|k: int| 0 <= k < hosted.len() implies {
        &&& (#[trigger] hosted[k]).0 == g[k + 2].0
        &&& hosted[k].1 == g[k + 2].1
        &&& hosted[k].2 == g[k + 2].2
        &&& request_order(hosted[k].3) == seq![
            Layer::Auth(auth_state_of(s)),
            Layer::AgentAuth(s.agent_auth),
        ]
        &&& request_order(g[k + 2].3) == seq![
            Layer::Trace,
            Layer::Compression,
            Layer::CatchPanic,
        ] + request_order(hosted[k].3)
    } by {
        assert(hosted[k].3 =~= inner);
        assert(g[k + 2].3 == gateway_stack(s));
        assert(inner.reverse() =~= seq![Layer::Auth(auth_state_of(s)), Layer::AgentAuth(s.agent_auth)]);
        assert(gateway_stack(s).reverse() =~= seq![
            Layer::Trace,
            Layer::Compression,
            Layer::CatchPanic,
        ] + inner.reverse());
    }
}

/// The handlers that the standalone gateway serves without authentication.
pub open spec fn is_public_handler(h: Handler) -> bool {
    ||| h == Handler::Jwks
    ||| h == Handler::Metrics
    ||| h == Handler::Mounted(MountedRouter::KeyServer)
    ||| h == Handler::Mounted(MountedRouter::WebUiHtml)
}

/// In the standalone gateway every endpoint but the public ones (JWKS,
/// metrics, key server, web UI page) carries the full stack with both
/// authentication layers, and the public ones carry no layer at all. The
/// key-server routes are served exactly when a key server is configured,
/// `/metrics` and the web UI exactly when those features are on, and JWKS
/// always.
pub proof fn gateway_auth_coverage(s: AppState)
    ensures
        forall|i: int|
            0 <= i < gateway_table(s).len() ==> if is_public_handler(
                (#[trigger] gateway_table(s)[i]).2,
            ) {
                gateway_table(s)[i].3 == Seq::<Layer>::empty()
            } else {
                gateway_table(s)[i].3 == gateway_stack(s)
            },
        serves(gateway_table(s), RoutePath::Mounted(MountedRouter::KeyServer), Method::Any)
            <==> s.key_server_enabled,
        serves(gateway_table(s), RoutePath::Metrics, Method::Get) <==> s.features.metrics,
        serves(gateway_table(s), RoutePath::Mounted(MountedRouter::WebUiHtml), Method::Any)
            <==> s.features.webui,
        serves(gateway_table(s), RoutePath::Jwks, Method::Get),
{
    let g = gateway_table(s);
    let a = gateway_surface(s.features);
    let p = public_surface(s);
    let n: int = a.len() as int;
    assert forall|i: int| 0 <= i < g.len() implies if is_public_handler((#[trigger] g[i]).2) {
        g[i].3 == Seq::<Layer>::empty()
    } else {
        g[i].3 == gateway_stack(s)
    } by {
        if i < n {
            assert(g[i].2 == a[i].2);
            assert(!is_public_handler(a[i].2));
        } else {
            assert(g[i].2 == p[i - n].2);
            assert(is_public_handler(p[i - n].2));
        }
    }
    let ks = RoutePath::Mounted(MountedRouter::KeyServer);
    let html = RoutePath::Mounted(MountedRouter::WebUiHtml);
    if serves(g, ks, Method::Any) {
        let i = choose|i: int| 0 <= i < g.len() && (#[trigger] g[i]).0 == ks && g[i].1 == Method::Any;
        if i < n {
            assert(a[i].0 == ks);
        } else {
            assert(p[i - n].0 == ks);
        }
    }
    if s.key_server_enabled {
        assert(g[n].0 == ks && g[n].1 == Method::Any);
    }
    let k: int = if s.key_server_enabled { 1 } else { 0 };
    assert(g[n + k].0 == RoutePath::Jwks && g[n + k].1 == Method::Get);
    if serves(g, RoutePath::Metrics, Method::Get) {
        let i = choose|i: int|
            0 <= i < g.len() && (#[trigger] g[i]).0 == RoutePath::Metrics && g[i].1 == Method::Get;
        if i < n {
            assert(a[i].0 == RoutePath::Metrics);
        } else {
            assert(p[i - n].0 == RoutePath::Metrics);
        }
    }
    if s.features.metrics {
        assert(g[n + k + 1].0 == RoutePath::Metrics && g[n + k + 1].1 == Method::Get);
    }
    if serves(g, html, Method::Any) {
        let i = choose|i: int| 0 <= i < g.len() && (#[trigger] g[i]).0 == html && g[i].1 == Method::Any;
        if i < n {
            assert(a[i].0 == html);
        } else {
            assert(p[i - n].0 == html);
        }
    }
    if s.features.webui {
        let j: int = if s.features.metrics { 2 } else { 1 };
        assert(g[n + k + j].0 == html && g[n + k + j].1 == Method::Any);
    }
}


/// The web UI is served exactly when it is on: its API routes sit behind
/// the full authenticated stack and its page outside it, and when the web UI
/// is off no route of it is present at all.
pub proof fn gateway_webui_routes(s: AppState)
    ensures
        serves(gateway_table(s), RoutePath::Mounted(MountedRouter::WebUiApi), Method::Any)
            <==> s.features.webui,
        forall|i: int|
            0 <= i < gateway_table(s).len() && (#[trigger] gateway_table(s)[i]).0
                == RoutePath::Mounted(MountedRouter::WebUiApi) ==> gateway_table(s)[i].3
                == gateway_stack(s),
        forall|i: int|
            0 <= i < gateway_table(s).len() && ((#[trigger] gateway_table(s)[i]).0
                == RoutePath::Mounted(MountedRouter::WebUiApi) || gateway_table(s)[i].0
                == RoutePath::Mounted(MountedRouter::WebUiHtml) || gateway_table(s)[i].2
                == Handler::Mounted(MountedRouter::WebUiApi) || gateway_table(s)[i].2
                == Handler::Mounted(MountedRouter::WebUiHtml)) ==> s.features.webui,
{
    let g = gateway_table(s);
    let a = gateway_surface(s.features);
    let p = public_surface(s);
    let n: int = a.len() as int;
    let api = RoutePath::Mounted(MountedRouter::WebUiApi);
    assert forall|i: int|
        0 <= i < g.len() && ((#[trigger] g[i]).0 == api || g[i].0 == RoutePath::Mounted(
            MountedRouter::WebUiHtml,
        ) || g[i].2 == Handler::Mounted(MountedRouter::WebUiApi) || g[i].2 == Handler::Mounted(
            MountedRouter::WebUiHtml,
        )) implies s.features.webui && (g[i].0 == api ==> g[i].3 == gateway_stack(s)) by {
        if i < n {
            assert(g[i].0 == a[i].0 && g[i].2 == a[i].2 && g[i].3 == gateway_stack(s));
        } else {
            assert(g[i].0 == p[i - n].0 && g[i].2 == p[i - n].2);
        }
    }
    if serves(g, api, Method::Any) {
        let i = choose|i: int| 0 <= i < g.len() && (#[trigger] g[i]).0 == api && g[i].1 == Method::Any;
        assert(s.features.webui);
    }
    if s.features.webui {
        assert(a[9] == (api, Method::Any, Handler::Mounted(MountedRouter::WebUiApi)));
        assert(g[9].0 == api && g[9].1 == Method::Any);
    }
}


/// The documented routes: the embedding router answers `POST`, `GET` and
/// `DELETE /mcp` with the Meta-MCP, SSE and session-delete handlers and
/// `POST /mcp/{name}` and `POST /mcp/{name}/{*path}` with the backend
/// handler, and nothing else; the standalone gateway answers all of these
/// plus `GET /health`, `GET /api/costs` and `GET`/`POST /sse`, each behind
/// both authentication layers, and serves `GET /.well-known/jwks.json`
/// without any layer.
pub proof fn documented_routes(s: AppState)
    ensures
        protocol_table().len() == 5,
        serves_with(protocol_table(), RoutePath::Mcp, Method::Post, Handler::MetaMcp),
        serves_with(protocol_table(), RoutePath::Mcp, Method::Get, Handler::McpSse),
        serves_with(protocol_table(), RoutePath::Mcp, Method::Delete, Handler::McpDelete),
        serves_with(protocol_table(), RoutePath::McpServer, Method::Post, Handler::Backend),
        serves_with(protocol_table(), RoutePath::McpServerPath, Method::Post, Handler::Backend),
        forall|i: int| 0 <= i < 5 ==> (#[trigger] protocol_table()[i]).3 == Seq::<Layer>::empty(),
        forall|i: int|
            0 <= i < 5 ==> {
                let e = #[trigger] protocol_table()[i];
                serves_with(gateway_table(s), e.0, e.1, e.2)
            },
        serves_with(gateway_table(s), RoutePath::Health, Method::Get, Handler::Health),
        serves_with(gateway_table(s), RoutePath::ApiCosts, Method::Get, Handler::Costs),
        serves_with(gateway_table(s), RoutePath::Sse, Method::Get, Handler::SseDeprecated),
        serves_with(gateway_table(s), RoutePath::Sse, Method::Post, Handler::SseDeprecated),
        serves_with(gateway_table(s), RoutePath::Jwks, Method::Get, Handler::Jwks),
        forall|i: int|
            0 <= i < gateway_table(s).len() && !((#[trigger] gateway_table(s)[i]).2 == Handler::Jwks
                || gateway_table(s)[i].2 == Handler::Metrics || gateway_table(s)[i].2 is Mounted)
                ==> request_order(gateway_table(s)[i].3) == seq![
                Layer::Trace,
                Layer::Compression,
                Layer::CatchPanic,
                Layer::Auth(auth_state_of(s)),
                Layer::AgentAuth(s.agent_auth),
            ],
{
    let e = protocol_table();
    let g = gateway_table(s);
    let a = gateway_surface(s.features);
    let p = public_surface(s);
    let n: int = a.len() as int;
    assert(e[0].0 == RoutePath::Mcp && e[0].1 == Method::Post && e[0].2 == Handler::MetaMcp);
    assert(e[1].0 == RoutePath::Mcp && e[1].1 == Method::Get && e[1].2 == Handler::McpSse);
    assert(e[2].0 == RoutePath::Mcp && e[2].1 == Method::Delete && e[2].2 == Handler::McpDelete);
    assert(e[3].0 == RoutePath::McpServer && e[3].1 == Method::Post && e[3].2 == Handler::Backend);
    assert(e[4].0 == RoutePath::McpServerPath && e[4].1 == Method::Post && e[4].2 == Handler::Backend);
    assert forall|i: int| 0 <= i < 5 implies {
        let x = #[trigger] e[i];
        serves_with(g, x.0, x.1, x.2)
    } by {
        assert(g[i + 2].0 == e[i].0 && g[i + 2].1 == e[i].1 && g[i + 2].2 == e[i].2);
    }
    assert(g[0].0 == RoutePath::Health && g[0].1 == Method::Get && g[0].2 == Handler::Health);
    assert(g[1].0 == RoutePath::ApiCosts && g[1].1 == Method::Get && g[1].2 == Handler::Costs);
    assert(g[7].0 == RoutePath::Sse && g[7].1 == Method::Get && g[7].2 == Handler::SseDeprecated);
    assert(g[8].0 == RoutePath::Sse && g[8].1 == Method::Post && g[8].2 == Handler::SseDeprecated);
    let k: int = if s.key_server_enabled { 1 } else { 0 };
    assert(g[n + k].0 == RoutePath::Jwks && g[n + k].1 == Method::Get && g[n + k].2 == Handler::Jwks);
    assert(gateway_stack(s).reverse() =~= seq![
        Layer::Trace,
        Layer::Compression,
        Layer::CatchPanic,
        Layer::Auth(auth_state_of(s)),
        Layer::AgentAuth(s.agent_auth),
    ]);
    assert forall|i: int|
        0 <= i < g.len() && !((#[trigger] g[i]).2 == Handler::Jwks || g[i].2 == Handler::Metrics
            || g[i].2 is Mounted) implies request_order(g[i].3) == seq![
        Layer::Trace,
        Layer::Compression,
        Layer::CatchPanic,
        Layer::Auth(auth_state_of(s)),
        Layer::AgentAuth(s.agent_auth),
    ] by {
        if i < n {
            assert(g[i].3 == gateway_stack(s));
        } else {
            assert(g[i].2 == p[i - n].2);
        }
    }
}

} // verus!
