//! A router as a table of endpoints: each endpoint is a path, a method, the
//! handler that answers it and the middleware layers that wrap it.
//!
//! The operations follow the router they describe: `route` adds an endpoint,
//! `layer` wraps every endpoint present at the time of the call (and none
//! added later), `merge` puts two routers side by side, and two endpoints
//! never share a path and a method.

use vstd::prelude::*;

use crate::middleware::Layer;

verus! {

/// The HTTP method of an endpoint. `Any` stands for the whole method set of
/// a mounted sub-router.
#[derive(Clone, Copy, PartialEq, Eq, Structural, Debug)]
pub enum Method {
    Get,
    Post,
    Delete,
    Any,
}

/// Sub-routers whose routes are defined by their own modules and merged in
/// as a whole.
#[derive(Clone, Copy, PartialEq, Eq, Structural, Debug)]
pub enum MountedRouter {
    /// Key-server token exchange routes.
    KeyServer,
    /// Web UI API routes.
    WebUiApi,
    /// Web UI HTML page.
    WebUiHtml,
}

/// The paths that the gateway routes.
#[derive(Clone, Copy, PartialEq, Eq, Structural, Debug)]
pub enum RoutePath {
    /// `/health`
    Health,
    /// `/api/costs`
    ApiCosts,
    /// `/mcp`
    Mcp,
    /// `/mcp/{name}`
    McpServer,
    /// `/mcp/{name}/{*path}`
    McpServerPath,
    /// `/sse`
    Sse,
    /// `/.well-known/jwks.json`
    Jwks,
    /// `/metrics`
    Metrics,
    /// The paths of a mounted sub-router.
    Mounted(MountedRouter),
}

/// The handlers that answer requests.
#[derive(Clone, Copy, PartialEq, Eq, Structural, Debug)]
pub enum Handler {
    /// Meta-MCP JSON-RPC requests (`POST /mcp`).
    MetaMcp,
    /// Server-sent event stream (`GET /mcp`).
    McpSse,
    /// Session termination (`DELETE /mcp`).
    McpDelete,
    /// Forwarding to a named backend.
    Backend,
    /// Liveness.
    Health,
    /// Cost accounting report.
    Costs,
    /// Explains that the SSE endpoint moved.
    SseDeprecated,
    /// JSON web key set of the gateway.
    Jwks,
    /// Prometheus scrape endpoint.
    Metrics,
    /// Everything a mounted sub-router answers.
    Mounted(MountedRouter),
}

impl RoutePath {
    /// The path as it is written in a route; empty for a mounted sub-router,
    /// which has no single path.
    pub open spec fn path_text(self) -> Seq<char> {
        match self {
            RoutePath::Health => "/health"@,
            RoutePath::ApiCosts => "/api/costs"@,
            RoutePath::Mcp => "/mcp"@,
            RoutePath::McpServer => "/mcp/{name}"@,
            RoutePath::McpServerPath => "/mcp/{name}/{*path}"@,
            RoutePath::Sse => "/sse"@,
            RoutePath::Jwks => "/.well-known/jwks.json"@,
            RoutePath::Metrics => "/metrics"@,
            RoutePath::Mounted(_) => Seq::empty(),
        }
    }

    /// The path text of a concrete route, `None` for a mounted sub-router.
    pub fn text(&self) -> (r: Option<&'static str>)
        ensures
            r is None <==> *self is Mounted,
            r matches Some(s) ==> s@ == self.path_text(),
    {
        match self {
            RoutePath::Health => Some("/health"),
            RoutePath::ApiCosts => Some("/api/costs"),
            RoutePath::Mcp => Some("/mcp"),
            RoutePath::McpServer => Some("/mcp/{name}"),
            RoutePath::McpServerPath => Some("/mcp/{name}/{*path}"),
            RoutePath::Sse => Some("/sse"),
            RoutePath::Jwks => Some("/.well-known/jwks.json"),
            RoutePath::Metrics => Some("/metrics"),
            RoutePath::Mounted(_) => None,
        }
    }
}

/// An endpoint as the contracts see it: path, method, handler, and the
/// layers in the order in which they were applied (innermost first).
pub type EndpointView = (RoutePath, Method, Handler, Seq<Layer>);

/// One endpoint of a router.
pub struct Endpoint {
    pub path: RoutePath,
    pub method: Method,
    pub handler: Handler,
    /// Layers in the order in which they were applied, innermost first.
    pub layers: Vec<Layer>,
}

impl View for Endpoint {
    type V = EndpointView;

    open spec fn view(&self) -> EndpointView {
        (self.path, self.method, self.handler, self.layers@)
    }
}

/// The order in which the layers of an endpoint see a request: the layer
/// applied last runs first.
pub open spec fn request_order(layers: Seq<Layer>) -> Seq<Layer> {
    layers.reverse()
}

/// No two endpoints share a path and a method.
pub open spec fn keys_unique(t: Seq<EndpointView>) -> bool {
    forall|i: int, j: int|
        0 <= i < t.len() && 0 <= j < t.len() && i != j ==> !(#[trigger] t[i].0 == #[trigger] t[j].0
            && t[i].1 == t[j].1)
}

/// No endpoint of `a` shares a path and a method with one of `b`.
pub open spec fn disjoint(a: Seq<EndpointView>, b: Seq<EndpointView>) -> bool {
    forall|i: int, j: int|
        0 <= i < a.len() && 0 <= j < b.len() ==> !(#[trigger] a[i].0 == #[trigger] b[j].0 && a[i].1
            == b[j].1)
}

/// The table answers `method` on `path`.
pub open spec fn serves(t: Seq<EndpointView>, path: RoutePath, method: Method) -> bool {
    exists|i: int| 0 <= i < t.len() && (#[trigger] t[i]).0 == path && t[i].1 == method
}

/// The table answers `method` on `path` with `handler`.
pub open spec fn serves_with(
    t: Seq<EndpointView>,
    path: RoutePath,
    method: Method,
    handler: Handler,
) -> bool {
    exists|i: int|
        0 <= i < t.len() && (#[trigger] t[i]).0 == path && t[i].1 == method && t[i].2 == handler
}

/// Every endpoint of `t` wrapped once more, in `l`.
pub open spec fn apply_layer(t: Seq<EndpointView>, l: Layer) -> Seq<EndpointView> {
    Seq::new(t.len(), |i: int| (t[i].0, t[i].1, t[i].2, t[i].3.push(l)))
}

/// A router: the endpoints it serves, each with its own layers.
pub struct RouteTable {
    endpoints: Vec<Endpoint>,
}

impl View for RouteTable {
    type V = Seq<EndpointView>;

    closed spec fn view(&self) -> Seq<EndpointView> {
        self.endpoints@.map_values(|e: Endpoint| e@)
    }
}

impl RouteTable {
    #[verifier::type_invariant]
    spec fn wf(self) -> bool {
        keys_unique(self@)
    }

    /// A router that serves nothing.
    pub fn new() -> (t: Self)
        ensures
            t@ == Seq::<EndpointView>::empty(),
    {
        let t = RouteTable { endpoints: Vec::new() };
        assert(t@ =~= Seq::<EndpointView>::empty());
        t
    }

    /// A router made of one mounted sub-router, with no layers of its own.
    pub fn mounted(m: MountedRouter) -> (t: Self)
        ensures
            t@ == seq![(RoutePath::Mounted(m), Method::Any, Handler::Mounted(m), Seq::<Layer>::empty())],
    {
        let mut endpoints: Vec<Endpoint> = Vec::new();
        endpoints.push(
            Endpoint {
                path: RoutePath::Mounted(m),
                method: Method::Any,
                handler: Handler::Mounted(m),
                layers: Vec::new(),
            },
        );
        let t = RouteTable { endpoints };
        assert(t@ =~= seq![(RoutePath::Mounted(m), Method::Any, Handler::Mounted(m), Seq::<Layer>::empty())]);
        t
    }

    /// Adds an endpoint with no layers. The path and method must not be
    /// served yet (the router would panic on such an overlap).
    pub fn route(self, path: RoutePath, method: Method, handler: Handler) -> (t: Self)
        requires
            !(path is Mounted),
            method != Method::Any,
            !serves(self@, path, method),
        ensures
            t@ == self@.push((path, method, handler, Seq::<Layer>::empty())),
    {
        proof {
            use_type_invariant(&self);
        }
        let ghost old_view = self@;
        let mut endpoints = self.endpoints;
        endpoints.push(Endpoint { path, method, handler, layers: Vec::new() });
        let ghost new_view = endpoints@.map_values(|e: Endpoint| e@);
        assert(new_view =~= old_view.push((path, method, handler, Seq::<Layer>::empty())));
        assert forall|i: int, j: int|
            0 <= i < new_view.len() && 0 <= j < new_view.len() && i != j implies !(
            #[trigger] new_view[i].0 == #[trigger] new_view[j].0 && new_view[i].1 == new_view[j].1) by {
            if i == old_view.len() as int {
                assert(old_view[j] == new_view[j]);
            } else if j == old_view.len() as int {
                assert(old_view[i] == new_view[i]);
            } else {
                assert(old_view[i] == new_view[i] && old_view[j] == new_view[j]);
            }
        }
        RouteTable { endpoints }
    }

    /// Wraps every endpoint present now in `l`; endpoints added later are
    /// not wrapped.
    pub fn layer(self, l: Layer) -> (t: Self)
        ensures
            t@ == apply_layer(self@, l),
    {
        proof {
            use_type_invariant(&self);
        }
        let ghost old_view = self@;
        let mut rest = self.endpoints;
        let mut done: Vec<Endpoint> = Vec::new();
        let ghost n = old_view.len();
        while rest.len() > 0
            invariant
                n == old_view.len(),
                done@.len() + rest@.len() == n,
                forall|k: int|
                    0 <= k < done@.len() ==> (#[trigger] done@[k])@ == apply_layer(old_view, l)[k],
                forall|k: int|
                    0 <= k < rest@.len() ==> (#[trigger] rest@[k])@ == old_view[done@.len() + k],
            decreases rest@.len(),
        {
            let mut e = rest.remove(0);
            e.layers.push(l);
            done.push(e);
        }
        let ghost new_view = done@.map_values(|e: Endpoint| e@);
        assert(new_view =~= apply_layer(old_view, l));
        assert forall|i: int, j: int|
            0 <= i < new_view.len() && 0 <= j < new_view.len() && i != j implies !(
            #[trigger] new_view[i].0 == #[trigger] new_view[j].0 && new_view[i].1 == new_view[j].1) by {
            assert(old_view[i].0 == new_view[i].0 && old_view[j].0 == new_view[j].0);
        }
        RouteTable { endpoints: done }
    }

    /// Puts `other` beside `self`; each keeps its own layers. The two must
    /// not share a path and a method (the router would panic on such an
    /// overlap).
    pub fn merge(self, other: RouteTable) -> (t: Self)
        requires
            disjoint(self@, other@),
        ensures
            t@ == self@ + other@,
    {
        proof {
            use_type_invariant(&self);
            use_type_invariant(&other);
        }
        let ghost a = self@;
        let ghost b = other@;
        let mut endpoints = self.endpoints;
        let mut rest = other.endpoints;
        let ghost m = b.len();
        while rest.len() > 0
            invariant
                m == b.len(),
                endpoints@.len() - a.len() + rest@.len() == m,
                endpoints@.len() >= a.len(),
                forall|k: int|
                    0 <= k < endpoints@.len() ==> (#[trigger] endpoints@[k])@ == (a + b)[k],
                forall|k: int|
                    0 <= k < rest@.len() ==> (#[trigger] rest@[k])@ == b[endpoints@.len() - a.len()
                        + k],
            decreases rest@.len(),
        {
            let e = rest.remove(0);
            endpoints.push(e);
        }
        let ghost new_view = endpoints@.map_values(|e: Endpoint| e@);
        assert(new_view =~= a + b);
        assert forall|i: int, j: int|
            0 <= i < new_view.len() && 0 <= j < new_view.len() && i != j implies !(
            #[trigger] new_view[i].0 == #[trigger] new_view[j].0 && new_view[i].1 == new_view[j].1) by {
            if i < a.len() && j < a.len() {
                assert(a[i] == new_view[i] && a[j] == new_view[j]);
            } else if i >= a.len() && j >= a.len() {
                assert(b[i - a.len()] == new_view[i] && b[j - a.len()] == new_view[j]);
            } else if i < a.len() {
                assert(a[i] == new_view[i] && b[j - a.len()] == new_view[j]);
            } else {
                assert(b[i - a.len()] == new_view[i] && a[j] == new_view[j]);
            }
        }
        RouteTable { endpoints }
    }

    /// The number of endpoints.
    pub fn len(&self) -> (n: usize)
        ensures
            n == self@.len(),
    {
        self.endpoints.len()
    }

    /// The endpoint at position `i`.
    pub fn endpoint(&self, i: usize) -> (e: &Endpoint)
        requires
            i < self@.len(),
        ensures
            e@ == self@[i as int],
    {
        &self.endpoints[i]
    }

    /// Whether the router answers `method` on `path`.
    pub fn serves(&self, path: RoutePath, method: Method) -> (b: bool)
        ensures
            b == serves(self@, path, method),
    {
        let mut i: usize = 0;
        while i < self.endpoints.len()
            invariant
                i <= self@.len(),
                self@.len() == self.endpoints@.len(),
                forall|k: int| 0 <= k < i ==> !((#[trigger] self@[k]).0 == path && self@[k].1 == method),
            decreases self@.len() - i,
        {
            let e = &self.endpoints[i];
            if e.path == path && e.method == method {
                assert(self@[i as int] == e@);
                return true;
            }
            i = i + 1;
        }
        false
    }
}

} // verus!
