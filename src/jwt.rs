//! JWT validation against a JSON Web Key Set: validator configuration, key
//! selection by key id and the classification of verification failures.
//!
//! Checking a signature and the standard claims is left to `jsonwebtoken`;
//! the payload it yields is normalized by [`crate::claims::normalize_claims`].

use vstd::prelude::*;
use crate::error::AuthError;
use crate::oauth::opt_view;
use jsonwebtoken::errors::ErrorKind as K;
use crate::jwt::JwtErrorKind as J;
use jsonwebtoken::jwk::{Jwk, JwkSet};

verus! {

#[verifier::external_type_specification]
#[verifier::external_body]
pub struct ExJwkSet(JwkSet);

#[verifier::external_type_specification]
#[verifier::external_body]
pub struct ExJwk(Jwk);

#[verifier::external_type_specification]
#[verifier::external_body]
pub struct ExJwtError(jsonwebtoken::errors::Error);

/// The key ids of the keys of a set, in order (`None` for a key without id).
pub uninterp spec fn key_ids(set: JwkSet) -> Seq<Option<Seq<char>>>;

/// The key id in the header of `token`: `None` when the header cannot be
/// decoded, `Some(None)` when it names no key.
pub uninterp spec fn header_key_id(token: Seq<char>) -> Option<Option<Seq<char>>>;

/// The view of an optional optional string.
pub open spec fn opt_opt_view(o: Option<Option<String>>) -> Option<Option<Seq<char>>> {
    match o {
        Some(inner) => Some(opt_view(inner)),
        None => None,
    }
}

/// Relies on `jsonwebtoken::decode_header`: decodes the token's header,
/// without checking the signature, and reads its `kid`.
#[verifier::external_body]
fn decode_key_id(token: &str) -> (r: Option<Option<String>>)
    ensures
        opt_opt_view(r) == header_key_id(token@),
{
    jsonwebtoken::decode_header(token).ok().map(|h| h.kid)
}

/// Relies on `JwkSet::find`: a key of the set whose id is `kid`, if any.
#[verifier::external_body]
fn find_key<'a>(set: &'a JwkSet, kid: &str) -> (r: Option<&'a Jwk>)
    ensures
        r is Some <==> key_ids(*set).contains(Some(kid@)),
{
    set.find(kid)
}

/// How the key lookup for `token` in a set with key ids `ids` ends.
pub open spec fn selects_key(token: Seq<char>, ids: Seq<Option<Seq<char>>>, r: Result<(), AuthError>) -> bool {
    match header_key_id(token) {
        None => r == Err::<(), AuthError>(AuthError::MalformedCredential),
        Some(None) => r == Err::<(), AuthError>(AuthError::MissingKeyId),
        Some(Some(k)) => if ids.contains(Some(k)) {
            r is Ok
        } else {
            r matches Err(AuthError::KeyNotFound(id)) && id@ == k
        },
    }
}

/// The outcome of a lookup, without the key.
pub open spec fn lookup_result<T>(r: Result<T, AuthError>) -> Result<(), AuthError> {
    match r {
        Ok(_) => Ok(()),
        Err(e) => Err(e),
    }
}

/// Finds the key that signed `token`: reads the key id from the token's
/// header and looks it up in `jwks`.
pub fn select_key<'a>(token: &str, jwks: &'a JwkSet) -> (r: Result<&'a Jwk, AuthError>)
    ensures
        selects_key(token@, key_ids(*jwks), lookup_result(r)),
{
    match decode_key_id(token) {
        None => Err(AuthError::MalformedCredential),
        Some(None) => Err(AuthError::MissingKeyId),
        Some(Some(kid)) => match find_key(jwks, kid.as_str()) {
            Some(jwk) => Ok(jwk),
            None => Err(AuthError::KeyNotFound(kid)),
        },
    }
}

/// Why a token failed verification with its key.
#[derive(Clone, Copy, Debug, PartialEq, Eq, Structural)]
pub enum TokenFault {
    /// The signature does not verify, or the key cannot verify it.
    Signature,
    /// Expiry, audience, issuer or another standard claim is not acceptable.
    Claims,
    /// The token is not a well-formed JWT.
    Malformed,
}

/// The kinds of failure that `jsonwebtoken` reports.
#[derive(Clone, Debug, PartialEq, Eq)]
pub enum JwtErrorKind {
    InvalidToken,
    InvalidSignature,
    InvalidEcdsaKey,
    InvalidRsaKey(String),
    RsaFailedSigning,
    InvalidAlgorithmName,
    InvalidKeyFormat,
    MissingRequiredClaim(String),
    ExpiredSignature,
    InvalidIssuer,
    InvalidAudience,
    InvalidSubject,
    ImmatureSignature,
    InvalidAlgorithm,
    MissingAlgorithm,
    Base64,
    Json,
    Utf8,
    Crypto,
    /// A kind added by a later version.
    Other,
}

/// Relies on `jsonwebtoken::errors::Error::kind`: which kind of failure
/// `e` is.
#[verifier::external_body]
fn kind_of(e: jsonwebtoken::errors::Error) -> (r: JwtErrorKind) {
    match e.into_kind() {
        K::InvalidToken => J::InvalidToken, K::InvalidSignature => J::InvalidSignature,
        K::InvalidEcdsaKey => J::InvalidEcdsaKey, K::InvalidRsaKey(m) => J::InvalidRsaKey(m),
        K::RsaFailedSigning => J::RsaFailedSigning, K::InvalidKeyFormat => J::InvalidKeyFormat,
        K::InvalidAlgorithmName => J::InvalidAlgorithmName,
        K::MissingRequiredClaim(c) => J::MissingRequiredClaim(c),
        K::ExpiredSignature => J::ExpiredSignature, K::InvalidIssuer => J::InvalidIssuer,
        K::InvalidAudience => J::InvalidAudience, K::InvalidSubject => J::InvalidSubject,
        K::ImmatureSignature => J::ImmatureSignature, K::InvalidAlgorithm => J::InvalidAlgorithm,
        K::MissingAlgorithm => J::MissingAlgorithm, K::Base64(_) => J::Base64,
        K::Json(_) => J::Json, K::Utf8(_) => J::Utf8, K::Crypto(_) => J::Crypto,
        _ => J::Other,
    }
}

/// What a failure of `kind` says about the token: its signature cannot be
/// verified with the key, one of its standard claims (expiry, audience,
/// issuer, ...) is not acceptable, or it is not a well-formed token.
pub open spec fn kind_fault(kind: JwtErrorKind) -> TokenFault {
    match kind {
        JwtErrorKind::InvalidSignature | JwtErrorKind::InvalidEcdsaKey
        | JwtErrorKind::InvalidRsaKey(_) | JwtErrorKind::InvalidKeyFormat
        | JwtErrorKind::InvalidAlgorithm | JwtErrorKind::MissingAlgorithm
        | JwtErrorKind::Crypto => TokenFault::Signature,
        JwtErrorKind::ExpiredSignature | JwtErrorKind::InvalidIssuer
        | JwtErrorKind::InvalidAudience | JwtErrorKind::InvalidSubject
        | JwtErrorKind::ImmatureSignature
        | JwtErrorKind::MissingRequiredClaim(_) => TokenFault::Claims,
        _ => TokenFault::Malformed,
    }
}

/// What a failure of `kind` says about the token.
pub fn fault_of_kind(kind: &JwtErrorKind) -> (r: TokenFault)
    ensures
        r == kind_fault(*kind),
{
    match kind {
        JwtErrorKind::InvalidSignature | JwtErrorKind::InvalidEcdsaKey
        | JwtErrorKind::InvalidRsaKey(_) | JwtErrorKind::InvalidKeyFormat
        | JwtErrorKind::InvalidAlgorithm | JwtErrorKind::MissingAlgorithm
        | JwtErrorKind::Crypto => TokenFault::Signature,
        JwtErrorKind::ExpiredSignature | JwtErrorKind::InvalidIssuer
        | JwtErrorKind::InvalidAudience | JwtErrorKind::InvalidSubject
        | JwtErrorKind::ImmatureSignature
        | JwtErrorKind::MissingRequiredClaim(_) => TokenFault::Claims,
        _ => TokenFault::Malformed,
    }
}

/// The outcome of verifying a token with `jsonwebtoken`, with the kind of
/// its failure.
pub fn classify_verification<T>(outcome: Result<T, jsonwebtoken::errors::Error>) -> (r: Result<T, JwtErrorKind>)
    ensures
        outcome matches Ok(v) ==> r == Ok::<T, JwtErrorKind>(v),
        outcome is Err ==> r is Err,
{
    match outcome {
        Ok(v) => Ok(v),
        Err(e) => Err(kind_of(e)),
    }
}

/// What a validator requires of a token besides its signature.
#[derive(Clone, Debug)]
pub struct ValidationPolicy {
    /// The audience that the `aud` claim must hold; not checked when `None`.
    pub audience: Option<String>,
    /// The issuer that the `iss` claim must equal; not checked when `None`.
    pub issuer: Option<String>,
}

/// What a signature-and-claims check with one key verifies.
#[derive(Clone, Debug)]
pub struct CheckSettings {
    /// The one algorithm accepted, named as the key names it; the
    /// checker's default when the key names none.
    pub algorithm: Option<String>,
    /// Whether the `aud` claim is checked.
    pub validate_audience: bool,
    /// The audience the `aud` claim must hold, when checked.
    pub audience: Option<String>,
    /// The issuer the `iss` claim must equal, if any.
    pub issuer: Option<String>,
}

impl ValidationPolicy {
    /// The checks for a key whose algorithm field is `key_algorithm`: only
    /// that algorithm is accepted, the audience is checked only when the
    /// policy names one, and likewise the issuer. Expiry is always checked.
    pub fn settings_for(&self, key_algorithm: Option<String>) -> (r: CheckSettings)
        ensures
            r.algorithm == key_algorithm,
            r.validate_audience == self.audience is Some,
            opt_view(r.audience) == opt_view(self.audience),
            opt_view(r.issuer) == opt_view(self.issuer),
    {
        let audience = match &self.audience {
            Some(a) => Some(a.clone()),
            None => None,
        };
        let issuer = match &self.issuer {
            Some(i) => Some(i.clone()),
            None => None,
        };
        CheckSettings {
            algorithm: key_algorithm,
            validate_audience: self.audience.is_some(),
            audience,
            issuer,
        }
    }
}

/// Builder of a JWT validator: where its keys come from and what it requires.
#[derive(Clone, Debug)]
pub struct JwtValidatorBuilder {
    /// URL of the JSON Web Key Set.
    pub jwks_url: String,
    /// Required audience, if any.
    pub audience: Option<String>,
    /// Required issuer, if any.
    pub issuer: Option<String>,
}

impl JwtValidatorBuilder {
    /// Starts a validator whose keys are fetched from `url`, with no
    /// audience or issuer required.
    pub fn from_jwks_url(url: &str) -> (r: Self)
        ensures
            r.jwks_url@ == url@,
            r.audience is None,
            r.issuer is None,
    {
        JwtValidatorBuilder { jwks_url: String::from_str(url), audience: None, issuer: None }
    }

    /// Requires the `aud` claim to hold this value.
    pub fn audience(self, audience: &str) -> (r: Self)
        ensures
            r.jwks_url == self.jwks_url,
            opt_view(r.audience) == Some(audience@),
            r.issuer == self.issuer,
    {
        JwtValidatorBuilder { audience: Some(String::from_str(audience)), ..self }
    }

    /// Requires the `iss` claim to equal this value.
    pub fn issuer(self, issuer: &str) -> (r: Self)
        ensures
            r.jwks_url == self.jwks_url,
            r.audience == self.audience,
            opt_view(r.issuer) == Some(issuer@),
    {
        JwtValidatorBuilder { issuer: Some(String::from_str(issuer)), ..self }
    }

    /// The policy that the built validator enforces.
    pub fn policy(&self) -> (r: ValidationPolicy)
        ensures
            opt_view(r.audience) == opt_view(self.audience),
            opt_view(r.issuer) == opt_view(self.issuer),
    {
        let audience = match &self.audience {
            Some(a) => Some(a.clone()),
            None => None,
        };
        let issuer = match &self.issuer {
            Some(i) => Some(i.clone()),
            None => None,
        };
        ValidationPolicy { audience, issuer }
    }
}

} // verus!
