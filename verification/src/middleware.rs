//! Middleware layers that can wrap the routes of a router.

use vstd::prelude::*;

verus! {

/// What the bearer-token / API-key authentication middleware is configured
/// with, as far as routing is concerned.
#[derive(Clone, Copy, PartialEq, Eq, Structural, Debug)]
pub struct AuthState {
    /// Whether OIDC-issued temporary tokens of a key server are accepted too.
    pub key_server_enabled: bool,
}

/// What the agent-JWT middleware is configured with, as far as routing is
/// concerned.
#[derive(Clone, Copy, PartialEq, Eq, Structural, Debug)]
pub struct AgentAuthState {
    /// With `false` the middleware passes every request through.
    pub enabled: bool,
}

/// A middleware layer applied to the routes of a router.
#[derive(Clone, Copy, PartialEq, Eq, Structural, Debug)]
pub enum Layer {
    /// Agent-JWT validation and audit.
    AgentAuth(AgentAuthState),
    /// Bearer-token / API-key authentication with rate limiting.
    Auth(AuthState),
    /// Turns a panic in a handler into a 500 response.
    CatchPanic,
    /// Response compression.
    Compression,
    /// HTTP request tracing.
    Trace,
}

impl Layer {
    /// Whether this layer checks credentials.
    pub open spec fn is_auth(self) -> bool {
        self is AgentAuth || self is Auth
    }
}

} // verus!
