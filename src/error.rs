//! Failures of authentication.

use vstd::prelude::*;

verus! {

/// Why a request could not be authenticated.
#[derive(Clone, Debug, PartialEq, Eq)]
pub enum AuthError {
    /// The credential header (named here) is absent.
    MissingCredential(String),
    /// The credential header is present but unusable.
    MalformedCredential,
    /// The token's header names no signing key.
    MissingKeyId,
    /// No key of the key set carries the token's key id (given here).
    KeyNotFound(String),
    /// The token's signature does not verify.
    SignatureInvalid,
    /// Expiry, audience or issuer do not satisfy the policy.
    ClaimsInvalid,
    /// The key set could not be fetched.
    JwksFetchFailed,
    /// The fetched key set is not a valid JWK set.
    JwksParseFailed,
}

impl AuthError {
    /// The human-readable description of the failure.
    pub open spec fn describe(self) -> Seq<char> {
        match self {
            AuthError::MissingCredential(h) => "missing "@ + h@ + " header"@,
            AuthError::MalformedCredential => "malformed credential"@,
            AuthError::MissingKeyId => "JWT missing kid header"@,
            AuthError::KeyNotFound(k) => "no matching key for kid: "@ + k@,
            AuthError::SignatureInvalid => "JWT signature is invalid"@,
            AuthError::ClaimsInvalid => "JWT claims are invalid"@,
            AuthError::JwksFetchFailed => "failed to fetch JWKS"@,
            AuthError::JwksParseFailed => "failed to parse JWKS"@,
        }
    }

    /// The human-readable description of the failure, as sent in a 401 body.
    pub fn message(&self) -> (r: String)
        ensures
            r@ == self.describe(),
    {
        match self {
            AuthError::MissingCredential(h) => {
                let mut s = String::from_str("missing ");
                s.append(h.as_str());
                s.append(" header");
                s
            },
            AuthError::MalformedCredential => String::from_str("malformed credential"),
            AuthError::MissingKeyId => String::from_str("JWT missing kid header"),
            AuthError::KeyNotFound(k) => {
                let mut s = String::from_str("no matching key for kid: ");
                s.append(k.as_str());
                s
            },
            AuthError::SignatureInvalid => String::from_str("JWT signature is invalid"),
            AuthError::ClaimsInvalid => String::from_str("JWT claims are invalid"),
            AuthError::JwksFetchFailed => String::from_str("failed to fetch JWKS"),
            AuthError::JwksParseFailed => String::from_str("failed to parse JWKS"),
        }
    }
}

} // verus!
