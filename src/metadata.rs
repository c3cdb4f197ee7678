//! OAuth 2.0 Protected Resource Metadata (RFC 9728).

use vstd::prelude::*;

verus! {

/// The discovery document of a protected resource, served read-only at
/// `/.well-known/oauth-protected-resource`.
#[derive(Clone, Debug)]
pub struct ProtectedResourceMetadata {
    /// The resource identifier: canonical URI of this server.
    pub resource: String,
    /// Authorization servers that issue tokens for this resource; at least
    /// one.
    pub authorization_servers: Vec<String>,
    /// Scopes supported by this resource.
    pub scopes_supported: Option<Vec<String>>,
    /// Bearer token methods supported (e.g. `header`).
    pub bearer_methods_supported: Option<Vec<String>>,
    /// URL of the resource's documentation.
    pub resource_documentation: Option<String>,
}

impl ProtectedResourceMetadata {
    /// The document names at least one authorization server.
    pub open spec fn wf(&self) -> bool {
        self.authorization_servers@.len() >= 1
    }

    /// Whether the document names at least one authorization server, as
    /// it must before it is served.
    pub fn is_well_formed(&self) -> (r: bool)
        ensures
            r == self.wf(),
    {
        self.authorization_servers.len() >= 1
    }
}

} // verus!
