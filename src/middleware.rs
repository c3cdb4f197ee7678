//! The authentication middleware: authenticators that read a credential
//! from request headers, and the decision to forward a request or answer it
//! with 401 Unauthorized.

use vstd::prelude::*;
use crate::credential::{api_key_credential, ascii_chars, authorization_name, bearer_credential, bearer_outcome, is_header_text};
use crate::error::AuthError;
use crate::oauth::{challenge_401, opt_view, www_authenticate_401, ResourceServerConfig};

verus! {

/// A response that ends a request without reaching the wrapped service.
#[derive(Clone, Debug)]
pub struct ErrorResponse {
    /// HTTP status code.
    pub status: u16,
    /// Value of the `WWW-Authenticate` header, if one is sent.
    pub www_authenticate: Option<String>,
    /// Plain-text body.
    pub body: String,
}

/// What the middleware does with a request.
#[derive(Debug)]
pub enum Decision<C> {
    /// Attach the claims to the request and forward it.
    Forward(C),
    /// Answer the request with this response.
    Reject(ErrorResponse),
}

/// The challenge header for a 401 response under `config`.
pub open spec fn challenge_for(config: Option<ResourceServerConfig>) -> Option<Seq<char>> {
    match config {
        Some(c) => Some(challenge_401(c.resource_metadata_url@, opt_view(c.default_scope))),
        None => None,
    }
}

/// `resp` is the 401 response that carries `message` under `config`.
pub open spec fn is_unauthorized(config: Option<ResourceServerConfig>, message: Seq<char>, resp: ErrorResponse) -> bool {
    &&& resp.status == 401
    &&& resp.body@ == message
    &&& opt_view(resp.www_authenticate) == challenge_for(config)
}

/// `d` is what the middleware does with an authentication `outcome`.
pub open spec fn decides<C>(config: Option<ResourceServerConfig>, outcome: Result<C, String>, d: Decision<C>) -> bool {
    match outcome {
        Ok(c) => d == Decision::Forward(c),
        Err(m) => d matches Decision::Reject(resp) && is_unauthorized(config, m@, resp),
    }
}

/// Layer that puts authentication in front of a service.
#[derive(Clone, Debug)]
pub struct AuthLayer<A> {
    /// How requests are authenticated.
    pub authenticator: A,
    /// Resource-server settings for `WWW-Authenticate` challenges.
    pub resource_server: Option<ResourceServerConfig>,
}

impl<A> AuthLayer<A> {
    /// A layer that authenticates with `authenticator` and sends no
    /// challenge header.
    pub fn new(authenticator: A) -> (r: Self)
        ensures
            r.authenticator == authenticator,
            r.resource_server is None,
    {
        AuthLayer { authenticator, resource_server: None }
    }

    /// Adds resource-server settings: 401 responses then carry a
    /// `WWW-Authenticate` challenge built from `config`.
    pub fn with_resource_server(self, config: ResourceServerConfig) -> (r: Self)
        ensures
            r.authenticator == self.authenticator,
            r.resource_server == Some(config),
    {
        AuthLayer { resource_server: Some(config), ..self }
    }

    /// Wraps `inner` in the authentication service.
    pub fn into_service<S>(self, inner: S) -> (r: AuthService<A, S>)
        ensures
            r.authenticator == self.authenticator,
            r.resource_server == self.resource_server,
            r.inner == inner,
    {
        AuthService {
            authenticator: self.authenticator,
            resource_server: self.resource_server,
            inner,
        }
    }
}

/// Service that authenticates each request before it reaches `inner`.
#[derive(Clone, Debug)]
pub struct AuthService<A, S> {
    /// How requests are authenticated.
    pub authenticator: A,
    /// Resource-server settings for `WWW-Authenticate` challenges.
    pub resource_server: Option<ResourceServerConfig>,
    /// The wrapped service.
    pub inner: S,
}

impl<A, S> AuthService<A, S> {
    /// Decides on a request from the outcome of its single authentication
    /// attempt: forward it with its claims, or answer 401 with the error's
    /// description as body and, under resource-server settings, a
    /// `WWW-Authenticate` challenge.
    pub fn decide<C>(&self, outcome: Result<C, String>) -> (r: Decision<C>)
        ensures
            decides(self.resource_server, outcome, r),
    {
        match outcome {
            Ok(claims) => Decision::Forward(claims),
            Err(message) => {
                let www_authenticate = match &self.resource_server {
                    Some(config) => Some(www_authenticate_401(config)),
                    None => None,
                };
                Decision::Reject(ErrorResponse { status: 401, www_authenticate, body: message })
            },
        }
    }
}

/// Authenticator that reads a token from `Authorization: Bearer <token>`
/// and hands it to its validator.
#[derive(Clone, Debug)]
pub struct BearerAuth<V> {
    /// Validates the token.
    pub validator: V,
}

impl<V> BearerAuth<V> {
    pub fn new(validator: V) -> (r: Self)
        ensures
            r.validator == validator,
    {
        BearerAuth { validator }
    }

    /// The token to validate, given the raw value of the `Authorization`
    /// header (`None` when absent).
    pub fn credential(&self, authorization: Option<&[u8]>) -> (r: Result<String, AuthError>)
        ensures
            authorization is None ==> r is Err && r->Err_0 is MissingCredential
                && r->Err_0->MissingCredential_0@ == authorization_name(),
            authorization matches Some(b) ==> match bearer_outcome(Some(b@)) {
                Ok(t) => r is Ok && r->Ok_0@ == t,
                Err(_) => r == Err::<String, AuthError>(AuthError::MalformedCredential),
            },
    {
        bearer_credential(authorization)
    }
}

/// Authenticator that reads an API key from a configured header and hands
/// it to its validator.
#[derive(Clone, Debug)]
pub struct ApiKeyAuth<V> {
    /// Name of the header that carries the key.
    pub header: String,
    /// Validates the key.
    pub validator: V,
}

impl<V> ApiKeyAuth<V> {
    pub fn new(header: &str, validator: V) -> (r: Self)
        ensures
            r.header@ == header@,
            r.validator == validator,
    {
        ApiKeyAuth { header: String::from_str(header), validator }
    }

    /// The key to validate, given the raw value of the configured header
    /// (`None` when absent). A value that is not readable text counts as
    /// absent.
    pub fn credential(&self, value: Option<&[u8]>) -> (r: Result<String, AuthError>)
        ensures
            match value {
                Some(b) if is_header_text(b@) => r is Ok && r->Ok_0@ == ascii_chars(b@),
                _ => r is Err && r->Err_0 is MissingCredential
                    && r->Err_0->MissingCredential_0@ == self.header@,
            },
    {
        api_key_credential(self.header.as_str(), value)
    }
}

/// A request without the credential header never reaches the wrapped
/// service: extraction fails, and any failed authentication is answered
/// with 401.
pub proof fn lemma_missing_credential_rejected<C>(
    config: Option<ResourceServerConfig>,
    message: String,
    d: Decision<C>,
)
    requires
        decides(config, Err::<C, String>(message), d),
    ensures
        bearer_outcome(None) is Err,
        d is Reject,
        d->Reject_0.status == 401,
        d->Reject_0.body@ == message@,
{
}

} // verus!
