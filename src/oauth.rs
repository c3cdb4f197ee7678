//! OAuth 2.1 resource-server challenges (RFC 6750, RFC 9728).

use vstd::prelude::*;
use crate::middleware::ErrorResponse;

verus! {

/// Configuration of a resource server, used to build `WWW-Authenticate`
/// challenges.
#[derive(Clone, Debug)]
pub struct ResourceServerConfig {
    /// URL of the Protected Resource Metadata document.
    pub resource_metadata_url: String,
    /// Scope announced in 401 challenges, if any.
    pub default_scope: Option<String>,
}

/// The 401 challenge: `Bearer resource_metadata="<url>"[, scope="<scope>"]`.
pub open spec fn challenge_401(url: Seq<char>, scope: Option<Seq<char>>) -> Seq<char> {
    let base = "Bearer resource_metadata=\""@ + url + "\""@;
    match scope {
        Some(s) => base + ", scope=\""@ + s + "\""@,
        None => base,
    }
}

/// The 403 challenge:
/// `Bearer error="insufficient_scope", scope="<scope>", resource_metadata="<url>"`.
pub open spec fn challenge_403(url: Seq<char>, scope: Seq<char>) -> Seq<char> {
    "Bearer error=\"insufficient_scope\", scope=\""@ + scope + "\", resource_metadata=\""@ + url
        + "\""@
}

/// The view of an optional string.
pub open spec fn opt_view(s: Option<String>) -> Option<Seq<char>> {
    match s {
        Some(v) => Some(v@),
        None => None,
    }
}

/// Value of the `WWW-Authenticate` header of a 401 Unauthorized response.
pub fn www_authenticate_401(config: &ResourceServerConfig) -> (r: String)
    ensures
        r@ == challenge_401(config.resource_metadata_url@, opt_view(config.default_scope)),
{
    let mut value = String::from_str("Bearer resource_metadata=\"");
    value.append(config.resource_metadata_url.as_str());
    value.append("\"");
    match &config.default_scope {
        Some(scope) => {
            value.append(", scope=\"");
            value.append(scope.as_str());
            value.append("\"");
        },
        None => {},
    }
    value
}

/// Value of the `WWW-Authenticate` header of a 403 Forbidden response for a
/// request that lacks `required_scope`.
pub fn www_authenticate_403(config: &ResourceServerConfig, required_scope: &str) -> (r: String)
    ensures
        r@ == challenge_403(config.resource_metadata_url@, required_scope@),
{
    let mut value = String::from_str("Bearer error=\"insufficient_scope\", scope=\"");
    value.append(required_scope);
    value.append("\", resource_metadata=\"");
    value.append(config.resource_metadata_url.as_str());
    value.append("\"");
    value
}

/// The 403 Forbidden response for a request with valid credentials that
/// lack `required_scope`.
pub fn insufficient_scope_response(config: &ResourceServerConfig, required_scope: &str) -> (r: ErrorResponse)
    ensures
        r.status == 403,
        opt_view(r.www_authenticate) == Some(challenge_403(config.resource_metadata_url@, required_scope@)),
        r.body@ == "insufficient scope"@,
{
    ErrorResponse {
        status: 403,
        www_authenticate: Some(www_authenticate_403(config, required_scope)),
        body: String::from_str("insufficient scope"),
    }
}

} // verus!
